//! The digital output capability: one binary line that can be driven high or
//! low and whose commanded level can be read back.

use vstd::prelude::*;
use crate::fault::HardwareFault;

verus! {

/// Electrical level of a digital output line.
#[derive(Clone, Copy, Debug, PartialEq, Eq, Structural)]
pub enum Level {
    Low,
    High,
}

/// One attempted write to a line, with what the hardware answered.
#[derive(Clone, Copy, Debug, PartialEq, Eq)]
pub struct LineWrite {
    pub level: Level,
    pub outcome: Result<(), HardwareFault>,
}

/// What is known of a line: the level it currently drives, and every write
/// attempted on it so far, oldest first.
pub struct LineState {
    pub level: Level,
    pub writes: Seq<LineWrite>,
}

/// `post` is `pre` after one attempt to drive the line to `level` that the
/// hardware answered with `outcome`. A write that succeeded leaves the line at
/// `level`; after one that failed the level is indeterminate.
pub open spec fn wrote(
    pre: LineState,
    post: LineState,
    level: Level,
    outcome: Result<(), HardwareFault>,
) -> bool {
    &&& post.writes == pre.writes.push(LineWrite { level, outcome })
    &&& outcome is Ok ==> post.level == level
}

/// An exclusively owned digital output line.
pub trait OutputLine {
    /// The line's level and write history.
    spec fn state(&self) -> LineState;

    /// Drives the line high.
    fn set_high(&mut self) -> (outcome: Result<(), HardwareFault>)
        ensures
            wrote(old(self).state(), final(self).state(), Level::High, outcome),
    ;

    /// Drives the line low.
    fn set_low(&mut self) -> (outcome: Result<(), HardwareFault>)
        ensures
            wrote(old(self).state(), final(self).state(), Level::Low, outcome),
    ;

    /// Whether the line is currently commanded high.
    fn is_set_high(&self) -> (high: bool)
        ensures
            high == (self.state().level == Level::High),
    ;

    /// Whether the line is currently commanded low.
    fn is_set_low(&self) -> (low: bool)
        ensures
            low == (self.state().level == Level::Low),
    ;
}

} // verus!
