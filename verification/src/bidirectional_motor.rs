//! The discrete full-bridge driver: two output lines that form one H-bridge
//! control pair.

use vstd::prelude::*;
use crate::fault::HardwareFault;
use crate::line::{wrote, Level, LineState, OutputLine};
use crate::BidirectionalMotor;

verus! {

/// The two lines of a discrete full bridge.
pub struct BridgeState {
    pub in1: LineState,
    pub in2: LineState,
}

/// `post` is `pre` after one bridge transition towards `in1` / `in2` that
/// ended in `result`: the first line is written, and the second only once the
/// first write has succeeded. The fault of the first write that fails is the
/// result, and a line that was not written is unchanged.
pub open spec fn drove(
    pre: BridgeState,
    post: BridgeState,
    in1: Level,
    in2: Level,
    result: Result<(), HardwareFault>,
) -> bool {
    let first = post.in1.writes.last().outcome;
    &&& wrote(pre.in1, post.in1, in1, first)
    &&& if first is Err {
        post.in2 == pre.in2 && result == first
    } else {
        wrote(pre.in2, post.in2, in2, result)
    }
}

/// Driver of an H-bridge with two binary inputs.
pub struct BidirectionalMotorDriver<L1: OutputLine, L2: OutputLine> {
    in1: L1,
    in2: L2,
}

impl<L1: OutputLine, L2: OutputLine> BidirectionalMotorDriver<L1, L2> {
    /// The state of the two lines the driver owns.
    pub closed spec fn state(&self) -> BridgeState {
        BridgeState { in1: self.in1.state(), in2: self.in2.state() }
    }

    /// Takes ownership of the two lines. Nothing is written: the bridge stays
    /// as the lines were left.
    pub fn new(in1: L1, in2: L2) -> (driver: Self)
        ensures
            driver.state() == (BridgeState { in1: in1.state(), in2: in2.state() }),
    {
        BidirectionalMotorDriver { in1, in2 }
    }

    /// The first line.
    pub fn in1(&self) -> (line: &L1)
        ensures
            line.state() == self.state().in1,
    {
        &self.in1
    }

    /// The second line.
    pub fn in2(&self) -> (line: &L2)
        ensures
            line.state() == self.state().in2,
    {
        &self.in2
    }

    /// Writes `in1` to the first line and then, if that write succeeded,
    /// `in2` to the second.
    fn drive(&mut self, in1: Level, in2: Level) -> (result: Result<(), HardwareFault>)
        ensures
            drove(old(self).state(), final(self).state(), in1, in2, result),
    {
        let first = match in1 {
            Level::High => self.in1.set_high(),
            Level::Low => self.in1.set_low(),
        };
        match first {
            Err(fault) => Err(fault),
            Ok(()) => match in2 {
                Level::High => self.in2.set_high(),
                Level::Low => self.in2.set_low(),
            },
        }
    }
}

impl<L1: OutputLine, L2: OutputLine> BidirectionalMotor for BidirectionalMotorDriver<L1, L2> {
    /// First line high, second line low.
    fn forward(&mut self) -> (result: Result<(), HardwareFault>)
        ensures
            drove(old(self).state(), final(self).state(), Level::High, Level::Low, result),
    {
        self.drive(Level::High, Level::Low)
    }

    /// First line low, second line high.
    fn backward(&mut self) -> (result: Result<(), HardwareFault>)
        ensures
            drove(old(self).state(), final(self).state(), Level::Low, Level::High, result),
    {
        self.drive(Level::Low, Level::High)
    }

    /// Both lines high.
    fn brake(&mut self) -> (result: Result<(), HardwareFault>)
        ensures
            drove(old(self).state(), final(self).state(), Level::High, Level::High, result),
    {
        self.drive(Level::High, Level::High)
    }

    /// Both lines low.
    fn coast(&mut self) -> (result: Result<(), HardwareFault>)
        ensures
            drove(old(self).state(), final(self).state(), Level::Low, Level::Low, result),
    {
        self.drive(Level::Low, Level::Low)
    }
}

/// A transition that succeeds leaves the two lines at the levels it was
/// after, having written each line once.
pub proof fn transition_reaches_levels(
    pre: BridgeState,
    post: BridgeState,
    in1: Level,
    in2: Level,
    result: Result<(), HardwareFault>,
)
    requires
        drove(pre, post, in1, in2, result),
        result is Ok,
    ensures
        post.in1.level == in1,
        post.in2.level == in2,
        post.in1.writes.len() == pre.in1.writes.len() + 1,
        post.in2.writes.len() == pre.in2.writes.len() + 1,
{
}

/// Every transition writes the first line once. It writes the second line
/// once if that first write succeeded and leaves it alone if not, and fails
/// exactly if one of its writes failed.
pub proof fn transition_writes_in_order(
    pre: BridgeState,
    post: BridgeState,
    in1: Level,
    in2: Level,
    result: Result<(), HardwareFault>,
)
    requires
        drove(pre, post, in1, in2, result),
    ensures
        post.in1.writes.len() == pre.in1.writes.len() + 1,
        post.in1.writes.last().level == in1,
        post.in1.writes.last().outcome is Ok ==> {
            &&& post.in2.writes.len() == pre.in2.writes.len() + 1
            &&& post.in2.writes.last().level == in2
            &&& post.in2.writes.last().outcome == result
        },
        post.in1.writes.last().outcome is Err ==> {
            &&& post.in2 == pre.in2
            &&& post.in1.writes.last().outcome == result
        },
{
}

/// Braking and then coasting, when the coasting succeeds, leaves both lines
/// low, whatever the bridge was doing before and however the braking ended.
pub proof fn brake_then_coast_is_low_low(
    before: BridgeState,
    braked: BridgeState,
    coasted: BridgeState,
    brake: Result<(), HardwareFault>,
    coast: Result<(), HardwareFault>,
)
    requires
        drove(before, braked, Level::High, Level::High, brake),
        drove(braked, coasted, Level::Low, Level::Low, coast),
        coast is Ok,
    ensures
        coasted.in1.level == Level::Low,
        coasted.in2.level == Level::Low,
{
}

} // verus!
