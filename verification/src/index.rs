use vstd::prelude::*;

verus! {

/// Whether advancing `index` by `increment` still fits in an `i32`.
pub open spec fn advance_fits(index: int, increment: int) -> bool {
    index + increment <= i32::MAX
}

/// The position that follows `index` after `increment` frames: the sum when it
/// fits in an `i32`, and 0 (the counter restarts) when it would overflow.
pub open spec fn next_index_spec(index: int, increment: int) -> int {
    if advance_fits(index, increment) {
        index + increment
    } else {
        0
    }
}

/// Advances a frame counter by `increment`, restarting it at 0 where the sum
/// would overflow an `i32`.
#[allow(non_snake_case)]
pub fn nextIndex(index: i32, increment: i32) -> (r: i32)
    requires
        index >= 0,
    ensures
        r == next_index_spec(index as int, increment as int),
        index + increment <= i32::MAX ==> r == index + increment,
        index + increment > i32::MAX ==> r == 0,
        increment >= 0 ==> r >= 0,
{
    if i32::MAX - index >= increment {
        index + increment
    } else {
        0
    }
}

} // verus!
