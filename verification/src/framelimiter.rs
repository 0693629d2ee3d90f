//! Frame pacing arithmetic: the target frame budget and the measured
//! delta time.
//!
//! The clock itself lives with the caller, which hands in elapsed
//! microseconds; this module owns the budget computation and the
//! decision whether the frame still has time left to sleep away.
use crate::fx::Fx;
use vstd::prelude::*;

verus! {

/// Limits the simulation to a fixed number of frames per second.
#[derive(Clone, Copy, PartialEq, Eq, Structural, Debug)]
pub struct FrameLimiter {
    /// Target frame budget in nanoseconds; one nanosecond (never met by
    /// a real frame) stands for an unlimited rate.
    pub time_per_frame_ns: u64,
    /// Elapsed time of the last frame, in microseconds.
    pub delta_time_us: u64,
    /// Elapsed time of the last frame, in seconds on the scalar grid.
    pub dt: Fx,
}

/// The frame budget a rate asks for: a whole number of microseconds,
/// rounded down, or the one-nanosecond stand-in for rate zero.
pub open spec fn spec_frame_budget_ns(frame_rate: u32) -> int {
    if frame_rate == 0 {
        1
    } else {
        (1_000_000int / frame_rate as int) * 1_000
    }
}

impl FrameLimiter {
    /// The budget never exceeds one second, so comparisons against it
    /// cannot overflow.
    pub open spec fn wf(self) -> bool {
        self.time_per_frame_ns <= 1_000_000_000 && self.dt.wf()
    }

    /// A limiter for the given frame rate; zero means unlimited. The
    /// first frame reports a one-microsecond delta.
    pub fn new(frame_rate: u32) -> (r: FrameLimiter)
        ensures
            r.time_per_frame_ns == spec_frame_budget_ns(frame_rate),
            r.delta_time_us == 1,
            r.dt == (Fx { raw: 0 }),
            r.wf(),
    {
        let time_per_frame_ns: u64 = if frame_rate == 0 {
            1
        } else {
            (1_000_000 / (frame_rate as u64)) * 1_000
        };
        FrameLimiter { time_per_frame_ns, delta_time_us: 1, dt: Fx { raw: 0 } }
    }

    /// The delta time of the last frame, in seconds, for the tick that
    /// is starting.
    pub fn start(&self) -> (r: Fx)
        ensures
            r == self.dt,
    {
        self.dt
    }

    /// End a frame that took `elapsed_us` microseconds: remember its
    /// delta (on the scalar grid, saturated), and say whether the frame
    /// finished under budget and the caller should keep sleeping.
    pub fn stop(&mut self, elapsed_us: u64) -> (r: bool)
        requires
            old(self).wf(),
        ensures
            r == (elapsed_us * 1000 < old(self).time_per_frame_ns),
            final(self).delta_time_us == elapsed_us,
            final(self).dt == Fx::spec_new(elapsed_us as int / 100),
            final(self).time_per_frame_ns == old(self).time_per_frame_ns,
            final(self).wf(),
    {
        self.delta_time_us = elapsed_us;
        let raw_us: u64 = elapsed_us / 100;
        self.dt = if raw_us > 1_000_000_000 {
            Fx { raw: 1_000_000_000 }
        } else {
            Fx { raw: raw_us as i64 }
        };
        if elapsed_us >= 1_000_000 {
            proof {
                assert(elapsed_us * 1000 >= 1_000_000_000);
            }
            false
        } else {
            elapsed_us * 1000 < self.time_per_frame_ns
        }
    }
}

} // verus!
