//! Conditions on which a staged motion goes on.

use vstd::prelude::*;

verus! {

/// Something a motion waits for between two of its stages. Times are
/// nanoseconds of a clock that never runs backwards.
pub trait Condition {
    /// Whether the wait is over at the time `now`.
    spec fn finished(&self, now: u64) -> bool;

    fn is_finished(&self, now: u64) -> (finished: bool)
        ensures
            finished == self.finished(now),
    ;
}

} // verus!
