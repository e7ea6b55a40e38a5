//! The conditions that motions use.

use vstd::prelude::*;

use crate::motion_interpolator_staged::Condition;

verus! {

/// Nothing to wait for.
#[derive(Clone, Copy, Debug)]
pub struct NoopContinue;

impl Condition for NoopContinue {
    open spec fn finished(&self, now: u64) -> bool {
        true
    }

    fn is_finished(&self, now: u64) -> (finished: bool) {
        true
    }
}

/// A wait of a fixed length.
#[derive(Clone, Copy, Debug)]
pub struct WaitContinue {
    pub start: u64,
    pub duration: u64,
}

impl WaitContinue {
    /// The time that has passed since the start of the wait: none where
    /// `now` lies before it.
    pub open spec fn elapsed(&self, now: u64) -> int {
        if now >= self.start {
            now - self.start
        } else {
            0
        }
    }

    /// A wait of `duration` that starts at the time `start`.
    pub fn new(start: u64, duration: u64) -> (wait: WaitContinue)
        ensures
            wait.start == start,
            wait.duration == duration,
    {
        WaitContinue { start, duration }
    }
}

impl Condition for WaitContinue {
    open spec fn finished(&self, now: u64) -> bool {
        self.elapsed(now) >= self.duration
    }

    fn is_finished(&self, now: u64) -> (finished: bool) {
        let elapsed: u64 = if now >= self.start {
            now - self.start
        } else {
            0
        };
        elapsed >= self.duration
    }
}

} // verus!
