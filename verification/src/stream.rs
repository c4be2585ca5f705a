use vstd::prelude::*;

use crate::index::{advance_fits, nextIndex, next_index_spec};

verus! {

/// Recording passes during which a duplex stream calibrates its timing before
/// it settles.
pub const STARTUP_INTERVALS: i32 = 8;

/// Bytes in one sample of 16-bit PCM.
pub const BYTES_PER_SAMPLE: i64 = 2;

/// The state of an OpenSL ES stream that the recording callback reads and
/// advances. The user callback and the OpenSL handles stay with the driver
/// that owns this state.
#[allow(non_camel_case_types)]
pub struct OPENSL_STREAM {
    /// Frames per second.
    pub sample_rate: i32,
    /// Samples per recorded frame.
    pub input_channels: i32,
    /// Samples per played frame; 0 for a stream that only records.
    pub output_channels: i32,
    /// Frames handed over per callback.
    pub callback_buffer_size: i32,
    /// Frames that the input ring buffer holds.
    pub input_buffer_frames: i32,
    /// Frames recorded so far, restarted at 0 where it would overflow.
    pub input_index: i32,
    /// Timing calibration passes done so far.
    pub input_intervals: i32,
}

/// What the recording callback does before it hands the next buffer to the
/// recorder.
pub enum RecordAction {
    /// A duplex stream still calibrating: measure the interval at this index.
    Calibrate { current_index: i32 },
    /// A stream that only records: hand the user callback `frames` frames of
    /// `channels` samples at `sample_rate`, starting at sample `offset` of the
    /// input buffer.
    Deliver { sample_rate: i32, frames: i32, channels: i32, offset: i64 },
    /// A duplex stream that is done calibrating: nothing before the enqueue.
    Nothing,
}

/// The region of the input buffer that the recording callback names to the
/// user callback of the stream once it has queued the next buffer: the one
/// callback buffer recorded at the index it started from.
pub struct RecordedRegion {
    pub frames: i32,
    pub channels: i32,
    /// Sample offset in the input buffer.
    pub offset: i64,
}

/// The decisions of one run of the recording callback.
pub struct RecordStep {
    pub action: RecordAction,
    /// Sample offset in the input buffer of the region handed to the recorder.
    pub enqueue_offset: i64,
    /// Size in bytes of that region.
    pub enqueue_bytes: i64,
    /// What the user callback of the stream is told after the enqueue, on
    /// every run.
    pub recorded: RecordedRegion,
}

/// The sample offset of frame `index` in a ring of `frames` frames of
/// `channels` samples.
pub open spec fn ring_offset(index: int, frames: int, channels: int) -> int {
    (index % frames) * channels
}

/// The region recorded at the index that a run of the recording callback
/// starts from.
pub open spec fn recorded_region_spec(s: OPENSL_STREAM) -> RecordedRegion {
    RecordedRegion {
        frames: s.callback_buffer_size,
        channels: s.input_channels,
        offset: ring_offset(
            s.input_index as int,
            s.input_buffer_frames as int,
            s.input_channels as int,
        ) as i64,
    }
}

/// What the recording callback does before the enqueue, given the state it
/// starts from.
pub open spec fn record_action_spec(s: OPENSL_STREAM) -> RecordAction {
    if s.output_channels != 0 {
        if s.input_intervals < STARTUP_INTERVALS {
            RecordAction::Calibrate { current_index: s.input_index }
        } else {
            RecordAction::Nothing
        }
    } else {
        RecordAction::Deliver {
            sample_rate: s.sample_rate,
            frames: s.callback_buffer_size,
            channels: s.input_channels,
            offset: ring_offset(
                s.input_index as int,
                s.input_buffer_frames as int,
                s.input_channels as int,
            ) as i64,
        }
    }
}

/// The state after one run of the recording callback: the input index moved
/// on by one callback buffer, everything else as it was.
pub open spec fn advanced(s: OPENSL_STREAM) -> OPENSL_STREAM {
    OPENSL_STREAM {
        input_index: next_index_spec(s.input_index as int, s.callback_buffer_size as int) as i32,
        ..s
    }
}

/// The sample offset of the region that one run of the recording callback
/// hands to the recorder: the ring slot of the advanced index.
pub open spec fn enqueue_offset_spec(s: OPENSL_STREAM) -> int {
    ring_offset(
        advanced(s).input_index as int,
        s.input_buffer_frames as int,
        s.input_channels as int,
    )
}

/// The size in bytes of that region: one callback buffer of 16-bit samples.
pub open spec fn enqueue_bytes_spec(s: OPENSL_STREAM) -> int {
    s.callback_buffer_size * s.input_channels * BYTES_PER_SAMPLE
}

impl OPENSL_STREAM {
    /// The recording state is usable: a non-empty ring, no negative counts.
    pub open spec fn wf(&self) -> bool {
        &&& self.input_buffer_frames > 0
        &&& self.input_index >= 0
        &&& self.input_channels >= 0
        &&& self.callback_buffer_size >= 0
    }

    /// One run of the recording callback: decides what precedes the enqueue,
    /// moves the input index on by one callback buffer, names the region of
    /// the input buffer that the recorder fills next, which starts at the new
    /// index, and the region recorded at the old index that the user callback
    /// is told of last. The driver performs the action, the enqueue, then calls
    /// the user callback with that region.
    pub fn record_step(&mut self) -> (r: RecordStep)
        requires
            old(self).wf(),
        ensures
            final(self).wf(),
            *final(self) == advanced(*old(self)),
            r.action == record_action_spec(*old(self)),
            r.enqueue_offset == enqueue_offset_spec(*old(self)),
            r.enqueue_bytes == enqueue_bytes_spec(*old(self)),
            r.recorded == recorded_region_spec(*old(self)),
            0 <= r.enqueue_offset <= (old(self).input_buffer_frames - 1) * old(self).input_channels,
            old(self).output_channels != 0 && old(self).input_intervals < 8 ==> r.action
                == (RecordAction::Calibrate { current_index: old(self).input_index }),
            old(self).output_channels != 0 && old(self).input_intervals >= 8 ==> r.action
                == RecordAction::Nothing,
            old(self).output_channels == 0 ==> (r.action matches RecordAction::Deliver {
                sample_rate,
                frames,
                channels,
                offset,
            } && sample_rate == old(self).sample_rate && frames == old(self).callback_buffer_size
                && channels == old(self).input_channels && offset == (old(self).input_index
                % old(self).input_buffer_frames) * old(self).input_channels),
            final(self).input_index == (if old(self).input_index + old(self).callback_buffer_size
                <= i32::MAX {
                old(self).input_index + old(self).callback_buffer_size
            } else {
                0
            }),
            r.enqueue_offset == (final(self).input_index % old(self).input_buffer_frames)
                * old(self).input_channels,
            r.enqueue_bytes == old(self).callback_buffer_size * old(self).input_channels * 2,
            r.recorded.frames == old(self).callback_buffer_size,
            r.recorded.channels == old(self).input_channels,
            r.recorded.offset == (old(self).input_index % old(self).input_buffer_frames)
                * old(self).input_channels,
    {
        let recorded_offset = ring_offset_of(self.input_index, self.input_buffer_frames, self.input_channels);
        let recorded = RecordedRegion {
            frames: self.callback_buffer_size,
            channels: self.input_channels,
            offset: recorded_offset,
        };
        let action = if self.output_channels != 0 {
            if self.input_intervals < STARTUP_INTERVALS {
                RecordAction::Calibrate { current_index: self.input_index }
            } else {
                RecordAction::Nothing
            }
        } else {
            let offset = ring_offset_of(self.input_index, self.input_buffer_frames, self.input_channels);
            RecordAction::Deliver {
                sample_rate: self.sample_rate,
                frames: self.callback_buffer_size,
                channels: self.input_channels,
                offset,
            }
        };
        self.input_index = nextIndex(self.input_index, self.callback_buffer_size);
        let enqueue_offset = ring_offset_of(self.input_index, self.input_buffer_frames, self.input_channels);
        let frames = self.callback_buffer_size as i64;
        let channels = self.input_channels as i64;
        assert(0 <= frames * channels <= 0x7fff_ffff * 0x7fff_ffff) by (nonlinear_arith)
            requires
                0 <= frames <= 0x7fff_ffff,
                0 <= channels <= 0x7fff_ffff,
        ;
        let enqueue_bytes = frames * channels * BYTES_PER_SAMPLE;
        RecordStep { action, enqueue_offset, enqueue_bytes, recorded }
    }
}

/// What precedes the enqueue: a duplex stream calibrates at its current index
/// during its first eight passes and does nothing after them; a stream that only
/// records hands the user callback one callback buffer of its channels from the
/// ring slot of its current index.
pub proof fn record_action_law(s: OPENSL_STREAM)
    requires
        s.wf(),
    ensures
        s.output_channels != 0 && s.input_intervals < 8 ==> record_action_spec(s)
            == (RecordAction::Calibrate { current_index: s.input_index }),
        s.output_channels != 0 && s.input_intervals >= 8 ==> record_action_spec(s)
            == RecordAction::Nothing,
        s.output_channels == 0 ==> (record_action_spec(s) matches RecordAction::Deliver {
            sample_rate,
            frames,
            channels,
            offset,
        } && sample_rate == s.sample_rate && frames == s.callback_buffer_size && channels
            == s.input_channels && offset == (s.input_index % s.input_buffer_frames)
            * s.input_channels),
{
    let slot = s.input_index % s.input_buffer_frames;
    assert(0 <= slot * s.input_channels <= 0x7fff_ffff * 0x7fff_ffff) by (nonlinear_arith)
        requires
            0 <= slot < s.input_buffer_frames <= 0x7fff_ffff,
            0 <= s.input_channels <= 0x7fff_ffff,
    ;
}

/// The sizes and places of one run: the index moves on by one callback buffer,
/// restarting at 0 where it would overflow; the queued region starts at the ring
/// slot of the new index and holds one callback buffer of the stream's channels
/// in 16-bit samples; the region told to the user callback is the one at the
/// ring slot of the old index.
pub proof fn record_places_law(s: OPENSL_STREAM)
    requires
        s.wf(),
    ensures
        advanced(s).input_index == (if s.input_index + s.callback_buffer_size <= i32::MAX {
            s.input_index + s.callback_buffer_size
        } else {
            0
        }),
        enqueue_offset_spec(s) == (advanced(s).input_index % s.input_buffer_frames)
            * s.input_channels,
        enqueue_bytes_spec(s) == s.callback_buffer_size * s.input_channels * 2,
        recorded_region_spec(s).frames == s.callback_buffer_size,
        recorded_region_spec(s).channels == s.input_channels,
        recorded_region_spec(s).offset == (s.input_index % s.input_buffer_frames)
            * s.input_channels,
{
    let slot = s.input_index % s.input_buffer_frames;
    assert(0 <= slot * s.input_channels <= 0x7fff_ffff * 0x7fff_ffff) by (nonlinear_arith)
        requires
            0 <= slot < s.input_buffer_frames <= 0x7fff_ffff,
            0 <= s.input_channels <= 0x7fff_ffff,
    ;
}

/// Where the ring holds whole callback buffers and the index sits on a buffer
/// boundary, the bytes queued for recording, from the queued offset on, end
/// inside the input ring of `input_buffer_frames` frames of 16-bit samples.
pub proof fn queued_bytes_fit_ring(s: OPENSL_STREAM)
    requires
        s.wf(),
        s.callback_buffer_size > 0,
        s.input_buffer_frames % s.callback_buffer_size == 0,
        s.input_index % s.callback_buffer_size == 0,
    ensures
        enqueue_offset_spec(s) * 2 + enqueue_bytes_spec(s) <= s.input_buffer_frames
            * s.input_channels * 2,
{
    enqueued_region_fits(s);
    record_places_law(s);
    let c = s.callback_buffer_size as int;
    let ch = s.input_channels as int;
    let f = s.input_buffer_frames as int;
    let o = enqueue_offset_spec(s);
    assert(o * 2 + c * ch * 2 <= f * ch * 2) by (nonlinear_arith)
        requires
            o + c * ch <= f * ch,
    ;
}

/// For a stream that only records, each run of the callback hands the user
/// callback exactly the region that the previous run queued for recording: the
/// same offset, and one callback buffer of the same channels.
pub proof fn delivered_region_was_enqueued(s: OPENSL_STREAM)
    requires
        s.wf(),
        s.output_channels == 0,
    ensures
        advanced(s).wf(),
        record_action_spec(advanced(s)) matches RecordAction::Deliver { frames, channels, offset, .. }
            && offset == enqueue_offset_spec(s) && frames * channels * BYTES_PER_SAMPLE
            == enqueue_bytes_spec(s),
{
    let slot = advanced(s).input_index % s.input_buffer_frames;
    assert(0 <= slot * s.input_channels <= 0x7fff_ffff * 0x7fff_ffff) by (nonlinear_arith)
        requires
            0 <= slot < s.input_buffer_frames <= 0x7fff_ffff,
            0 <= s.input_channels <= 0x7fff_ffff,
    ;
}

/// Where the ring holds a whole number of callback buffers and the index sits
/// on a callback-buffer boundary, the index stays on a boundary after a run of
/// the recording callback, and the whole region it queues for recording lies
/// inside the input buffer.
pub proof fn enqueued_region_fits(s: OPENSL_STREAM)
    requires
        s.wf(),
        s.callback_buffer_size > 0,
        s.input_buffer_frames % s.callback_buffer_size == 0,
        s.input_index % s.callback_buffer_size == 0,
    ensures
        advanced(s).input_index % s.callback_buffer_size == 0,
        enqueue_offset_spec(s) + s.callback_buffer_size * s.input_channels <= s.input_buffer_frames
            * s.input_channels,
{
    let c = s.callback_buffer_size as int;
    let f = s.input_buffer_frames as int;
    let ch = s.input_channels as int;
    let i = s.input_index as int;
    let n = advanced(s).input_index as int;
    if advance_fits(i, c) {
        vstd::arithmetic::div_mod::lemma_fundamental_div_mod(i, c);
        let k = i / c;
        assert(i + c == (k + 1) * c) by (nonlinear_arith)
            requires
                i == c * k + 0,
        ;
        vstd::arithmetic::div_mod::lemma_fundamental_div_mod_converse(i + c, c, k + 1, 0);
    } else {
        vstd::arithmetic::div_mod::lemma_small_mod(0, c as nat);
    }
    assert(n % c == 0);
    // the ring slot of `n` is a whole number of callback buffers too
    let p = f / c;
    vstd::arithmetic::div_mod::lemma_fundamental_div_mod(f, c);
    assert(f == c * p);
    assert(p > 0) by (nonlinear_arith)
        requires
            f == c * p,
            f > 0,
            c > 0,
    ;
    vstd::arithmetic::div_mod::lemma_mod_mod(n, c, p);
    assert(c * p == f);
    let slot = n % f;
    assert(slot % c == 0);
    assert(0 <= slot < f) by {
        vstd::arithmetic::div_mod::lemma_mod_bound(n, f);
    }
    vstd::arithmetic::div_mod::lemma_fundamental_div_mod(slot, c);
    let q = slot / c;
    assert(slot + c <= f) by (nonlinear_arith)
        requires
            slot == c * q,
            f == c * p,
            slot < f,
            c > 0,
    {
        assert(q < p) by (nonlinear_arith)
            requires
                c * q < c * p,
                c > 0,
        ;
    }
    assert((slot + c) * ch <= f * ch) by (nonlinear_arith)
        requires
            slot + c <= f,
            ch >= 0,
    ;
    assert(slot * ch + c * ch == (slot + c) * ch) by (nonlinear_arith);
}

/// The sample offset of frame `index` in the ring, which lies inside the ring.
fn ring_offset_of(index: i32, frames: i32, channels: i32) -> (r: i64)
    requires
        index >= 0,
        frames > 0,
        channels >= 0,
    ensures
        r == ring_offset(index as int, frames as int, channels as int),
        0 <= r <= (frames - 1) * channels,
{
    let slot = (index % frames) as i64;
    let ch = channels as i64;
    assert(0 <= slot * ch <= (frames - 1) * ch) by (nonlinear_arith)
        requires
            0 <= slot < frames,
            0 <= ch,
    ;
    assert((frames - 1) * ch <= 0x7fff_ffff * 0x7fff_ffff) by (nonlinear_arith)
        requires
            0 < frames <= 0x7fff_ffff,
            0 <= ch <= 0x7fff_ffff,
    ;
    slot * ch
}

} // verus!
