//! The timing capability: a blocking delay counted in milliseconds.

use vstd::prelude::*;

verus! {

/// What is known of a delay: every wait served so far in milliseconds,
/// oldest first.
pub struct DelayState {
    pub served: Seq<u32>,
}

/// A source of blocking delays.
pub trait Delay {
    /// The waits served so far.
    spec fn state(&self) -> DelayState;

    /// Blocks the caller for `ms` milliseconds.
    fn delay_ms(&mut self, ms: u32)
        ensures
            final(self).state().served == old(self).state().served.push(ms),
    ;
}

} // verus!
