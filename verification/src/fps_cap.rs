use vstd::prelude::*;

verus! {

/// Microseconds in one second.
pub const MICROS_PER_SECOND: u64 = 1_000_000;

/// Holds the frame rate at a target. Times are microseconds on a clock that
/// does not run backwards.
#[derive(Debug, Clone, Copy, PartialEq, Eq, Structural)]
pub struct FpsCap {
    target_micros: u64,
    last_frame: u64,
}

/// What a [`FpsCap`] holds.
pub struct FpsCapView {
    /// Least time that a frame is to take.
    pub target_micros: u64,
    /// Time at which the last frame began.
    pub last_frame: u64,
}

impl View for FpsCap {
    type V = FpsCapView;

    closed spec fn view(&self) -> FpsCapView {
        FpsCapView { target_micros: self.target_micros, last_frame: self.last_frame }
    }
}

/// Time from `earlier` to `later`, and nothing where `later` is the earlier
/// of the two.
pub open spec fn elapsed(earlier: u64, later: u64) -> u64 {
    if later >= earlier {
        (later - earlier) as u64
    } else {
        0
    }
}

/// Time that is left of a frame that has taken `taken` so far.
pub open spec fn remaining(target_micros: u64, taken: u64) -> Option<u64> {
    if taken < target_micros {
        Some((target_micros - taken) as u64)
    } else {
        None
    }
}

impl FpsCap {
    /// A cap at `target` frames per second, for a first frame that begins
    /// at `now`.
    pub fn with_target_fps(target: u32, now: u64) -> (cap: Self)
        requires
            target > 0,
        ensures
            cap@ == (FpsCapView {
                target_micros: MICROS_PER_SECOND / (target as u64),
                last_frame: now,
            }),
    {
        let target_micros: u64 = MICROS_PER_SECOND / (target as u64);
        Self { last_frame: now, target_micros }
    }

    /// Begins a frame at `now` and gives the time that the frame before it
    /// took.
    pub fn delta(&mut self, now: u64) -> (delta: u64)
        ensures
            delta == elapsed(old(self)@.last_frame, now),
            final(self)@ == (FpsCapView { last_frame: now, ..old(self)@ }),
    {
        let delta: u64 = if now >= self.last_frame {
            now - self.last_frame
        } else {
            0
        };
        self.last_frame = now;
        delta
    }

    /// The time to wait at `now` so that the frame takes its target time, or
    /// `None` where the frame has taken that long already.
    pub fn cap(&self, now: u64) -> (wait: Option<u64>)
        ensures
            wait == remaining(self@.target_micros, elapsed(self@.last_frame, now)),
    {
        let frame_delta: u64 = if now >= self.last_frame {
            now - self.last_frame
        } else {
            0
        };
        if frame_delta < self.target_micros {
            Some(self.target_micros - frame_delta)
        } else {
            None
        }
    }
}

impl Default for FpsCap {
    /// A cap at sixty frames per second, for a first frame that begins where
    /// the clock begins.
    fn default() -> (cap: Self)
        ensures
            cap@ == (FpsCapView { target_micros: MICROS_PER_SECOND / 60, last_frame: 0 }),
    {
        FpsCap::with_target_fps(60, 0)
    }
}

} // verus!
