use vstd::prelude::*;

verus! {

/// The cursor that follows `cursor` on a wave of `len` samples: one further,
/// and back to 0 where it reaches `len`.
pub open spec fn next_cursor(len: int, cursor: int) -> int {
    if cursor + 1 == len {
        0
    } else {
        cursor + 1
    }
}

/// The cursor after `steps` samples, starting from `cursor`.
pub open spec fn cursor_after(len: int, cursor: int, steps: nat) -> int
    decreases steps,
{
    if steps == 0 {
        cursor
    } else {
        next_cursor(len, cursor_after(len, cursor, (steps - 1) as nat))
    }
}

/// A periodic tone of `len` samples per period. Only its phase lives here: the
/// cursor names the sample of the period that is rendered next, and the caller
/// turns it into an amplitude.
pub struct SinWave {
    len: i32,
    cursor: i32,
}

impl View for SinWave {
    /// The period length and the cursor.
    type V = (int, int);

    closed spec fn view(&self) -> (int, int) {
        (self.len as int, self.cursor as int)
    }
}

impl SinWave {
    /// The cursor stays inside the period where there is one, and is never negative.
    #[verifier::type_invariant]
    closed spec fn inv(self) -> bool {
        &&& self.cursor >= 0
        &&& self.len > 0 ==> self.cursor < self.len
    }

    /// A wave of `len` samples per period, starting at its first sample.
    pub fn new(len: i32) -> (w: SinWave)
        ensures
            w@ == (len as int, 0int),
    {
        SinWave { len, cursor: 0 }
    }

    /// The number of samples per period.
    pub fn len(&self) -> (r: i32)
        ensures
            r == self@.0,
    {
        self.len
    }

    /// The sample of the period that is rendered next.
    pub fn cursor(&self) -> (r: i32)
        ensures
            r == self@.1,
            r >= 0,
            self@.0 > 0 ==> r < self@.0,
    {
        proof {
            use_type_invariant(self);
        }
        self.cursor
    }

    /// Renders one sample: hands out the current cursor and moves to the next
    /// sample, back to the first one at the end of the period. On a wave with a
    /// period the cursor stays inside it, so the tone never ends.
    pub fn next(&mut self) -> (r: i32)
        requires
            old(self)@.0 <= 0 ==> old(self)@.1 < i32::MAX,
        ensures
            r == old(self)@.1,
            final(self)@ == (old(self)@.0, next_cursor(old(self)@.0, old(self)@.1)),
            final(self)@.0 > 0 ==> 0 <= final(self)@.1 < final(self)@.0,
            old(self)@.1 + 1 == old(self)@.0 ==> final(self)@.1 == 0,
            old(self)@.1 + 1 != old(self)@.0 ==> final(self)@.1 == old(self)@.1 + 1,
    {
        proof {
            use_type_invariant(&*self);
        }
        let cursor = self.cursor;
        let next = cursor + 1;
        if next == self.len {
            self.cursor = 0;
        } else {
            self.cursor = next;
        }
        cursor
    }

    /// Renders the next `count` samples: the cursors of the samples, in order.
    /// The wave then continues after them.
    pub fn render(&mut self, count: usize) -> (r: Vec<i32>)
        requires
            old(self)@.0 <= 0 ==> old(self)@.1 + count <= i32::MAX,
        ensures
            r@.len() == count,
            forall|k: int|
                0 <= k < count ==> r@[k] == cursor_after(old(self)@.0, old(self)@.1, k as nat),
            final(self)@ == (old(self)@.0, cursor_after(old(self)@.0, old(self)@.1, count as nat)),
    {
        proof {
            use_type_invariant(&*self);
        }
        let ghost len = self@.0;
        let ghost start = self@.1;
        let mut out: Vec<i32> = Vec::new();
        let mut k: usize = 0;
        while k < count
            invariant
                k <= count,
                self@.0 == len,
                self@.1 == cursor_after(len, start, k as nat),
                len <= 0 ==> start + count <= i32::MAX,
                start >= 0,
                out@.len() == k,
                forall|j: int| 0 <= j < k ==> out@[j] == cursor_after(len, start, j as nat),
            decreases count - k,
        {
            proof {
                if len <= 0 {
                    lemma_cursor_grows(len, start, k as nat);
                }
            }
            let c = self.next();
            out.push(c);
            k = k + 1;
        }
        out
    }
}

/// Without a period the cursor only counts up, one per sample.
pub proof fn lemma_cursor_grows(len: int, cursor: int, steps: nat)
    requires
        len <= 0,
        cursor >= 0,
    ensures
        cursor_after(len, cursor, steps) == cursor + steps,
    decreases steps,
{
    if steps > 0 {
        lemma_cursor_grows(len, cursor, (steps - 1) as nat);
    }
}

/// After any whole number of periods the cursor is back where it started.
pub proof fn whole_periods_return(len: int, cursor: int, periods: nat)
    requires
        len > 0,
        0 <= cursor < len,
    ensures
        cursor_after(len, cursor, periods * len as nat) == cursor,
{
    cursor_after_is_modular(len, cursor, periods * len as nat);
    assert(cursor + periods * len == len * periods + cursor) by (nonlinear_arith);
    vstd::arithmetic::div_mod::lemma_mod_multiples_vanish(periods as int, cursor, len);
    vstd::arithmetic::div_mod::lemma_small_mod(cursor as nat, len as nat);
}

/// Rendering in two runs gives the samples of one run: the cursor after `a`
/// and then `b` samples is the cursor after `a + b` samples.
pub proof fn cursor_after_adds(len: int, cursor: int, a: nat, b: nat)
    ensures
        cursor_after(len, cursor_after(len, cursor, a), b) == cursor_after(len, cursor, a + b),
    decreases b,
{
    if b > 0 {
        cursor_after_adds(len, cursor, a, (b - 1) as nat);
        assert((a + b - 1) as nat == a + (b - 1) as nat);
    }
}

/// Stepping a position inside the period is addition modulo the period.
proof fn lemma_next_cursor_mod(len: int, a: int)
    requires
        len > 0,
        a >= 0,
    ensures
        next_cursor(len, a % len) == (a + 1) % len,
{
    let q = a / len;
    let r = a % len;
    vstd::arithmetic::div_mod::lemma_fundamental_div_mod(a, len);
    if r + 1 == len {
        assert(a + 1 == (q + 1) * len) by (nonlinear_arith)
            requires
                a == len * q + r,
                r + 1 == len,
        ;
        vstd::arithmetic::div_mod::lemma_fundamental_div_mod_converse(a + 1, len, q + 1, 0);
    } else {
        vstd::arithmetic::div_mod::lemma_fundamental_div_mod_converse(a + 1, len, q, r + 1);
    }
}

/// On a wave with a period, the cursor after `steps` samples is the start moved
/// by `steps` modulo the period.
pub proof fn cursor_after_is_modular(len: int, cursor: int, steps: nat)
    requires
        len > 0,
        0 <= cursor < len,
    ensures
        cursor_after(len, cursor, steps) == (cursor + steps) % len,
    decreases steps,
{
    if steps == 0 {
        vstd::arithmetic::div_mod::lemma_small_mod(cursor as nat, len as nat);
    } else {
        cursor_after_is_modular(len, cursor, (steps - 1) as nat);
        lemma_next_cursor_mod(len, cursor + steps - 1);
    }
}

/// A wave with a period repeats itself: after one whole period the cursor is
/// back where it started, so every rendered run of `len` samples is the same.
pub proof fn wave_is_periodic(len: int, cursor: int, steps: nat)
    requires
        len > 0,
        0 <= cursor < len,
    ensures
        cursor_after(len, cursor, steps + len as nat) == cursor_after(len, cursor, steps),
{
    cursor_after_is_modular(len, cursor, steps);
    cursor_after_is_modular(len, cursor, steps + len as nat);
    vstd::arithmetic::div_mod::lemma_mod_add_multiples_vanish(cursor + steps, len);
}

} // verus!
