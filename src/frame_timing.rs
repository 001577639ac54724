//! Exponentially smoothed interval between UI texture updates.
use vstd::prelude::*;

verus! {

/// Intervals of this length or longer (half a second, in microseconds) are
/// gaps, such as a resume from idle, and do not enter the average.
pub const FRAME_GAP_MICROS: u64 = 500_000;

/// The average after one sample: three quarters of the old average plus one
/// quarter of the sample, or the old average when the sample is a gap.
pub open spec fn smoothed(avg: int, sample: int) -> int {
    if sample < FRAME_GAP_MICROS {
        (avg * 3 + sample) / 4
    } else {
        avg
    }
}

/// Time elapsed from `last` to `now`; a clock reading that went backwards
/// counts as no time at all.
pub open spec fn elapsed_between(last: int, now: int) -> int {
    if now >= last {
        now - last
    } else {
        0
    }
}

/// Tracks when the UI texture was last updated and the smoothed interval
/// between updates, both in microseconds of a monotonic clock.
pub struct FrameTimer {
    pub avg_frame_micros: u64,
    pub last_update_micros: u64,
}

impl FrameTimer {
    /// The average stays below the gap bound, which keeps the update free of
    /// overflow.
    pub open spec fn wf(&self) -> bool {
        self.avg_frame_micros < FRAME_GAP_MICROS
    }

    /// A timer whose last update is `now` and whose average is zero.
    pub fn new(now: u64) -> (r: FrameTimer)
        ensures
            r.wf(),
            r.avg_frame_micros == 0,
            r.last_update_micros == now,
    {
        FrameTimer { avg_frame_micros: 0, last_update_micros: now }
    }

    /// Folds one interval sample into the average.
    pub fn add_sample(&mut self, elapsed: u64)
        requires
            old(self).wf(),
        ensures
            final(self).wf(),
            final(self).avg_frame_micros == smoothed(old(self).avg_frame_micros as int, elapsed as int),
            final(self).last_update_micros == old(self).last_update_micros,
    {
        if elapsed < FRAME_GAP_MICROS {
            self.avg_frame_micros = (self.avg_frame_micros * 3 + elapsed) / 4;
        }
    }

    /// Records a UI update at `now`: the interval since the previous update
    /// enters the average and `now` becomes the last update.
    pub fn record_update(&mut self, now: u64)
        requires
            old(self).wf(),
        ensures
            final(self).wf(),
            final(self).avg_frame_micros == smoothed(
                old(self).avg_frame_micros as int,
                elapsed_between(old(self).last_update_micros as int, now as int),
            ),
            final(self).last_update_micros == now,
    {
        let elapsed: u64 = if now >= self.last_update_micros {
            now - self.last_update_micros
        } else {
            0
        };
        self.add_sample(elapsed);
        self.last_update_micros = now;
    }
}

/// Starting from a zero average, one sample under the gap bound gives a
/// quarter of it, a second gives three quarters of the first average plus a
/// quarter of the second, and a gap leaves the average as it was.
pub proof fn lemma_smoothing_from_zero(e1: int, e2: int)
    requires
        0 <= e1,
        0 <= e2,
    ensures
        e1 < FRAME_GAP_MICROS ==> smoothed(0, e1) == e1 / 4,
        e1 >= FRAME_GAP_MICROS ==> smoothed(0, e1) == 0,
        e2 < FRAME_GAP_MICROS ==> smoothed(smoothed(0, e1), e2) == (smoothed(0, e1) * 3 + e2) / 4,
        e2 >= FRAME_GAP_MICROS ==> smoothed(smoothed(0, e1), e2) == smoothed(0, e1),
{
}

} // verus!
