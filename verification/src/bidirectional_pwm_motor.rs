//! The PWM full-bridge driver: two PWM channels on one timer that form one
//! H-bridge control pair.

use vstd::prelude::*;
use crate::channel::{commanded, issue, ChannelCommand, ChannelState, PwmChannel};
use crate::fault::{ConfigurationError, HardwareFault};

verus! {

/// A PWM full bridge: the duty ceiling its driver works with, and its two
/// channels.
pub struct PwmBridgeState {
    pub max_duty: u32,
    pub in1: ChannelState,
    pub in2: ChannelState,
}

impl PwmBridgeState {
    /// Both channels have the ceiling that the driver works with.
    pub open spec fn shares_ceiling(self) -> bool {
        self.in1.max_duty == self.max_duty && self.in2.max_duty == self.max_duty
    }
}

/// `post` is `pre` after one bridge transition that ended in `result`: `in1`
/// is attempted on the first channel, and `in2` on the second only once the
/// first command has succeeded. The fault of the first command that fails is
/// the result, and a channel that got no command is unchanged.
pub open spec fn commanded_pair(
    pre: PwmBridgeState,
    post: PwmBridgeState,
    in1: ChannelCommand,
    in2: ChannelCommand,
    result: Result<(), HardwareFault>,
) -> bool {
    let first = post.in1.calls.last().outcome;
    &&& post.max_duty == pre.max_duty
    &&& commanded(pre.in1, post.in1, in1, first)
    &&& if first is Err {
        post.in2 == pre.in2 && result == first
    } else {
        commanded(pre.in2, post.in2, in2, result)
    }
}

/// Driver of an H-bridge with two PWM inputs that share one duty ceiling.
pub struct BidirectionalPwmMotorDriver<C1: PwmChannel, C2: PwmChannel> {
    in1: C1,
    in2: C2,
    max_duty: u32,
}

impl<C1: PwmChannel, C2: PwmChannel> BidirectionalPwmMotorDriver<C1, C2> {
    /// The ceiling the driver works with and the state of the two channels
    /// it owns.
    pub closed spec fn state(&self) -> PwmBridgeState {
        PwmBridgeState {
            max_duty: self.max_duty,
            in1: self.in1.state(),
            in2: self.in2.state(),
        }
    }

    /// Takes ownership of the two channels if they report the same duty
    /// ceiling, which the driver keeps, and refuses them with both ceilings
    /// otherwise. No command is issued either way.
    pub fn new(in1: C1, in2: C2) -> (built: Result<Self, ConfigurationError>)
        ensures
            match built {
                Ok(driver) => {
                    &&& in1.state().max_duty == in2.state().max_duty
                    &&& driver.state() == (PwmBridgeState {
                        max_duty: in1.state().max_duty,
                        in1: in1.state(),
                        in2: in2.state(),
                    })
                },
                Err(error) => {
                    &&& in1.state().max_duty != in2.state().max_duty
                    &&& error == (ConfigurationError {
                        in1_max_duty: in1.state().max_duty,
                        in2_max_duty: in2.state().max_duty,
                    })
                },
            },
    {
        let in1_max_duty = in1.get_max_duty();
        let in2_max_duty = in2.get_max_duty();
        if in1_max_duty != in2_max_duty {
            return Err(ConfigurationError { in1_max_duty, in2_max_duty });
        }
        Ok(BidirectionalPwmMotorDriver { in1, in2, max_duty: in1_max_duty })
    }

    /// The first channel.
    pub fn in1(&self) -> (channel: &C1)
        ensures
            channel.state() == self.state().in1,
    {
        &self.in1
    }

    /// The second channel.
    pub fn in2(&self) -> (channel: &C2)
        ensures
            channel.state() == self.state().in2,
    {
        &self.in2
    }

    /// Attempts `in1` on the first channel and then, if that succeeded, `in2`
    /// on the second.
    fn drive(&mut self, in1: ChannelCommand, in2: ChannelCommand) -> (result: Result<
        (),
        HardwareFault,
    >)
        ensures
            commanded_pair(old(self).state(), final(self).state(), in1, in2, result),
    {
        match issue(&mut self.in1, in1) {
            Err(fault) => Err(fault),
            Ok(()) => issue(&mut self.in2, in2),
        }
    }
}

impl<C1: PwmChannel, C2: PwmChannel> crate::BidirectionalPwmMotor for BidirectionalPwmMotorDriver<C1, C2> {
    /// The first channel generates at `duty`, the second is disabled.
    fn forward(&mut self, duty: u32) -> (result: Result<(), HardwareFault>)
        ensures
            commanded_pair(
                old(self).state(),
                final(self).state(),
                ChannelCommand::SetDuty(duty),
                ChannelCommand::Disable,
                result,
            ),
    {
        self.drive(ChannelCommand::SetDuty(duty), ChannelCommand::Disable)
    }

    /// The first channel is disabled, the second generates at `duty`.
    fn backward(&mut self, duty: u32) -> (result: Result<(), HardwareFault>)
        ensures
            commanded_pair(
                old(self).state(),
                final(self).state(),
                ChannelCommand::Disable,
                ChannelCommand::SetDuty(duty),
                result,
            ),
    {
        self.drive(ChannelCommand::Disable, ChannelCommand::SetDuty(duty))
    }

    /// Both channels generate again, each at the duty it was last set to.
    fn brake(&mut self) -> (result: Result<(), HardwareFault>)
        ensures
            commanded_pair(
                old(self).state(),
                final(self).state(),
                ChannelCommand::Enable,
                ChannelCommand::Enable,
                result,
            ),
    {
        self.drive(ChannelCommand::Enable, ChannelCommand::Enable)
    }

    /// Both channels are disabled.
    fn coast(&mut self) -> (result: Result<(), HardwareFault>)
        ensures
            commanded_pair(
                old(self).state(),
                final(self).state(),
                ChannelCommand::Disable,
                ChannelCommand::Disable,
                result,
            ),
    {
        self.drive(ChannelCommand::Disable, ChannelCommand::Disable)
    }

    /// The duty ceiling that both channels were found to share when the
    /// driver was built.
    fn max_duty(&self) -> (max_duty: u32)
        ensures
            max_duty == self.state().max_duty,
    {
        self.max_duty
    }
}

impl<C1: PwmChannel, C2: PwmChannel> crate::DirectionalPwmMotor for BidirectionalPwmMotorDriver<C1, C2> {
    /// Starting is driving forward at `duty`.
    fn start(&mut self, duty: u32) -> (result: Result<(), HardwareFault>)
        ensures
            commanded_pair(
                old(self).state(),
                final(self).state(),
                ChannelCommand::SetDuty(duty),
                ChannelCommand::Disable,
                result,
            ),
    {
        crate::BidirectionalPwmMotor::forward(self, duty)
    }

    /// Stopping is braking.
    fn stop(&mut self) -> (result: Result<(), HardwareFault>)
        ensures
            commanded_pair(
                old(self).state(),
                final(self).state(),
                ChannelCommand::Enable,
                ChannelCommand::Enable,
                result,
            ),
    {
        crate::BidirectionalPwmMotor::brake(self)
    }

    /// The duty ceiling that both channels were found to share when the
    /// driver was built.
    fn max_duty(&self) -> (max_duty: u32)
        ensures
            max_duty == self.state().max_duty,
    {
        crate::BidirectionalPwmMotor::max_duty(self)
    }
}

impl<C1: PwmChannel, C2: PwmChannel> crate::BidirectionalMotor for BidirectionalPwmMotorDriver<C1, C2> {
    /// Forward at the duty ceiling.
    fn forward(&mut self) -> (result: Result<(), HardwareFault>)
        ensures
            commanded_pair(
                old(self).state(),
                final(self).state(),
                ChannelCommand::SetDuty(old(self).state().max_duty),
                ChannelCommand::Disable,
                result,
            ),
    {
        let duty = crate::BidirectionalPwmMotor::max_duty(self);
        crate::BidirectionalPwmMotor::forward(self, duty)
    }

    /// Backward at the duty ceiling.
    fn backward(&mut self) -> (result: Result<(), HardwareFault>)
        ensures
            commanded_pair(
                old(self).state(),
                final(self).state(),
                ChannelCommand::Disable,
                ChannelCommand::SetDuty(old(self).state().max_duty),
                result,
            ),
    {
        let duty = crate::BidirectionalPwmMotor::max_duty(self);
        crate::BidirectionalPwmMotor::backward(self, duty)
    }

    /// Both channels generate again, each at the duty it was last set to.
    fn brake(&mut self) -> (result: Result<(), HardwareFault>)
        ensures
            commanded_pair(
                old(self).state(),
                final(self).state(),
                ChannelCommand::Enable,
                ChannelCommand::Enable,
                result,
            ),
    {
        crate::BidirectionalPwmMotor::brake(self)
    }

    /// Both channels are disabled.
    fn coast(&mut self) -> (result: Result<(), HardwareFault>)
        ensures
            commanded_pair(
                old(self).state(),
                final(self).state(),
                ChannelCommand::Disable,
                ChannelCommand::Disable,
                result,
            ),
    {
        crate::BidirectionalPwmMotor::coast(self)
    }
}

/// A transition keeps the ceiling of the driver and of both channels, so a
/// bridge whose channels share the driver's ceiling goes on sharing it.
pub proof fn transition_keeps_ceiling(
    pre: PwmBridgeState,
    post: PwmBridgeState,
    in1: ChannelCommand,
    in2: ChannelCommand,
    result: Result<(), HardwareFault>,
)
    requires
        commanded_pair(pre, post, in1, in2, result),
    ensures
        post.max_duty == pre.max_duty,
        post.in1.max_duty == pre.in1.max_duty,
        post.in2.max_duty == pre.in2.max_duty,
        pre.shares_ceiling() ==> post.shares_ceiling(),
{
}

/// Driving forward at a duty within the ceiling, when it succeeds, leaves the
/// first channel generating at that duty and the second disabled with its
/// duty as it was.
pub proof fn forward_sets_first_disables_second(
    pre: PwmBridgeState,
    post: PwmBridgeState,
    duty: u32,
    result: Result<(), HardwareFault>,
)
    requires
        pre.shares_ceiling(),
        duty <= pre.max_duty,
        commanded_pair(pre, post, ChannelCommand::SetDuty(duty), ChannelCommand::Disable, result),
        result is Ok,
    ensures
        post.in1.duty == duty,
        post.in1.enabled,
        !post.in2.enabled,
        post.in2.duty == pre.in2.duty,
{
}

/// Driving backward at a duty within the ceiling, when it succeeds, leaves
/// the first channel disabled with its duty as it was and the second
/// generating at that duty.
pub proof fn backward_disables_first_sets_second(
    pre: PwmBridgeState,
    post: PwmBridgeState,
    duty: u32,
    result: Result<(), HardwareFault>,
)
    requires
        pre.shares_ceiling(),
        duty <= pre.max_duty,
        commanded_pair(pre, post, ChannelCommand::Disable, ChannelCommand::SetDuty(duty), result),
        result is Ok,
    ensures
        !post.in1.enabled,
        post.in1.duty == pre.in1.duty,
        post.in2.duty == duty,
        post.in2.enabled,
{
}

/// Braking and then coasting, when the coasting succeeds, leaves both
/// channels disabled, whatever the bridge was doing before and however the
/// braking ended.
pub proof fn brake_then_coast_disables_both(
    before: PwmBridgeState,
    braked: PwmBridgeState,
    coasted: PwmBridgeState,
    brake: Result<(), HardwareFault>,
    coast: Result<(), HardwareFault>,
)
    requires
        commanded_pair(before, braked, ChannelCommand::Enable, ChannelCommand::Enable, brake),
        commanded_pair(braked, coasted, ChannelCommand::Disable, ChannelCommand::Disable, coast),
        coast is Ok,
    ensures
        !coasted.in1.enabled,
        !coasted.in2.enabled,
{
}

} // verus!
