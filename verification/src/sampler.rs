//! Time-based frame sampling for the extraction stage: a frame is emitted
//! once its presentation timestamp passes a running threshold, which then
//! advances by a fixed interval — so the output cadence follows the video's
//! clock, not its frame count, whatever the source frame rate does.

use vstd::prelude::*;

verus! {

/// Result of one extraction run.
#[derive(Clone, Copy, Debug, PartialEq, Eq, Structural)]
pub struct ProcessingResult {
    /// How many frames were emitted.
    pub frames_processed: u32,
    /// Wall-clock time the run took, in milliseconds.
    pub total_duration_ms: u64,
}

/// The sampling decision state: which timestamps are emitted and how many
/// frames may still be produced.
pub struct FrameSampler {
    /// Minimum distance between emitted timestamps, in microseconds; zero
    /// emits every decoded frame.
    pub interval_us: u64,
    /// The threshold the next emitted timestamp must reach.
    pub next_emit_us: u64,
    /// Hard bound on emissions; zero means unbounded.
    pub max_frames: u32,
    /// How many frames have been emitted so far.
    pub emitted: u32,
}

impl FrameSampler {
    /// Builds the sampler for a run: with a target sampling rate the
    /// interval is one second over that rate; with only a frame budget it is
    /// the stream duration spread evenly over the budget; with neither,
    /// every decoded frame is emitted.
    pub fn new(max_frames: u32, sample_fps: u32, duration_us: u64) -> (r: Self)
        ensures
            r.max_frames == max_frames,
            r.emitted == 0,
            r.next_emit_us == 0,
            sample_fps > 0 ==> r.interval_us == 1_000_000 as u64 / sample_fps as u64,
            sample_fps == 0 && max_frames > 0 ==> r.interval_us == duration_us / max_frames as u64,
            sample_fps == 0 && max_frames == 0 ==> r.interval_us == 0,
    {
        let interval_us: u64 = if sample_fps > 0 {
            1_000_000u64 / (sample_fps as u64)
        } else if max_frames > 0 {
            duration_us / (max_frames as u64)
        } else {
            0
        };
        FrameSampler { interval_us, next_emit_us: 0, max_frames, emitted: 0 }
    }

    /// Whether a frame at this timestamp is emitted in the current state.
    pub open spec fn spec_should_emit(self, timestamp_us: u64) -> bool {
        &&& (self.max_frames == 0 || self.emitted < self.max_frames)
        &&& (self.interval_us == 0 || timestamp_us >= self.next_emit_us)
    }

    /// Decides whether to emit the frame with this presentation timestamp.
    /// On emission the threshold advances by one interval (saturating at the
    /// far end of time) and the emission count grows by one; a skipped frame
    /// changes nothing.
    pub fn should_emit(&mut self, timestamp_us: u64) -> (r: bool)
        requires
            old(self).emitted < u32::MAX,
        ensures
            r == old(self).spec_should_emit(timestamp_us),
            final(self).interval_us == old(self).interval_us,
            final(self).max_frames == old(self).max_frames,
            !r ==> *final(self) == *old(self),
            r ==> final(self).emitted == old(self).emitted + 1,
            r ==> final(self).next_emit_us == if old(self).interval_us == 0 {
                old(self).next_emit_us
            } else if old(self).next_emit_us + old(self).interval_us <= u64::MAX {
                (old(self).next_emit_us + old(self).interval_us) as u64
            } else {
                u64::MAX
            },
    {
        if self.max_frames > 0 && self.emitted >= self.max_frames {
            return false;
        }
        if self.interval_us > 0 && timestamp_us < self.next_emit_us {
            return false;
        }
        if self.interval_us > 0 {
            if self.next_emit_us <= u64::MAX - self.interval_us {
                self.next_emit_us = self.next_emit_us + self.interval_us;
            } else {
                self.next_emit_us = u64::MAX;
            }
        }
        self.emitted = self.emitted + 1;
        true
    }

    /// Whether the run is complete: the frame budget, if any, is exhausted.
    pub fn is_done(&self) -> (r: bool)
        ensures
            r == (self.max_frames > 0 && self.emitted >= self.max_frames),
    {
        self.max_frames > 0 && self.emitted >= self.max_frames
    }
}

/// How many frames a run aims to produce, as reported before extraction:
/// an explicit budget wins; otherwise a sampling rate over the stream
/// duration; otherwise every decoded frame. Saturates at the `u32` range.
pub fn target_frame_count(max_frames: u32, sample_fps: u32, duration_us: u64, total_frames: u32)
    -> (r: u32)
    ensures
        max_frames > 0 ==> r == max_frames,
        max_frames == 0 && sample_fps > 0 ==> r == if (duration_us as int) * (sample_fps as int)
            / 1_000_000 <= u32::MAX {
            ((duration_us as int) * (sample_fps as int) / 1_000_000) as u32
        } else {
            u32::MAX
        },
        max_frames == 0 && sample_fps == 0 ==> r == total_frames,
{
    if max_frames > 0 {
        max_frames
    } else if sample_fps > 0 {
        proof {
            assert((duration_us as int) * (sample_fps as int) <= 0xFFFF_FFFF_FFFF_FFFF
                * 0xFFFF_FFFF) by (nonlinear_arith)
                requires
                    duration_us <= 0xFFFF_FFFF_FFFF_FFFF,
                    sample_fps <= 0xFFFF_FFFF,
            ;
        }
        let scaled: u128 = (duration_us as u128) * (sample_fps as u128) / 1_000_000;
        if scaled <= u32::MAX as u128 {
            scaled as u32
        } else {
            u32::MAX
        }
    } else {
        total_frames
    }
}

} // verus!
