//! Values shared with the platform's synchronization primitives.

use vstd::prelude::*;

verus! {

/// The outcome of a timed wait on a condition variable.
pub struct WaitTimeoutResult {
    timed_out: bool,
}

impl WaitTimeoutResult {
    pub closed spec fn spec_timed_out(self) -> bool {
        self.timed_out
    }

    pub fn new(timed_out: bool) -> (r: Self)
        ensures
            r.spec_timed_out() == timed_out,
    {
        WaitTimeoutResult { timed_out }
    }

    /// Whether the wait ended because its time ran out.
    pub fn timed_out(&self) -> (r: bool)
        ensures
            r == self.spec_timed_out(),
    {
        self.timed_out
    }
}

} // verus!
