//! Errors that drivers hand to their callers.

use vstd::prelude::*;

verus! {

/// A write to a line or channel that the hardware refused. `code` is the
/// platform's status code for the refusal, passed through unchanged.
#[derive(Clone, Copy, Debug, PartialEq, Eq, Structural)]
pub struct HardwareFault {
    pub code: i32,
}

/// The two channels of a PWM full bridge report different duty ceilings.
/// Duties are only meaningful against one shared ceiling, so no driver is
/// built from such a pair.
#[derive(Clone, Copy, Debug, PartialEq, Eq, Structural)]
pub struct ConfigurationError {
    /// Ceiling reported by the first channel.
    pub in1_max_duty: u32,
    /// Ceiling reported by the second channel.
    pub in2_max_duty: u32,
}

} // verus!
