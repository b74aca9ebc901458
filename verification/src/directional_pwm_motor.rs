//! The PWM half-bridge driver: one PWM channel, driven at a duty or at zero.

use vstd::prelude::*;
use crate::channel::{commanded, ChannelCommand, ChannelState, PwmChannel};
use crate::fault::HardwareFault;

verus! {

/// A PWM half bridge: the duty ceiling its driver works with, and its
/// channel.
pub struct PwmDriveState {
    pub max_duty: u32,
    pub in1: ChannelState,
}

impl PwmDriveState {
    /// The channel has the ceiling that the driver works with.
    pub open spec fn shares_ceiling(self) -> bool {
        self.in1.max_duty == self.max_duty
    }
}

/// `post` is `pre` after the channel was set to `duty`, once, with `result`.
/// The driver's ceiling stays, and the channel gets no other command: it is
/// never disabled, and duty zero is its only "off".
pub open spec fn set_to(
    pre: PwmDriveState,
    post: PwmDriveState,
    duty: u32,
    result: Result<(), HardwareFault>,
) -> bool {
    &&& post.max_duty == pre.max_duty
    &&& commanded(pre.in1, post.in1, ChannelCommand::SetDuty(duty), result)
}

/// Driver of a motor powered through one PWM input.
pub struct DirectionalPwmMotorDriver<C: PwmChannel> {
    in1: C,
    max_duty: u32,
}

impl<C: PwmChannel> DirectionalPwmMotorDriver<C> {
    /// The ceiling the driver works with and the state of the channel it
    /// owns.
    pub closed spec fn state(&self) -> PwmDriveState {
        PwmDriveState { max_duty: self.max_duty, in1: self.in1.state() }
    }

    /// Takes ownership of the channel and reads its duty ceiling, which the
    /// driver keeps from then on. No command is issued.
    pub fn new(in1: C) -> (driver: Self)
        ensures
            driver.state() == (PwmDriveState { max_duty: in1.state().max_duty, in1: in1.state() }),
    {
        let max_duty = in1.get_max_duty();
        DirectionalPwmMotorDriver { in1, max_duty }
    }

    /// The channel.
    pub fn in1(&self) -> (channel: &C)
        ensures
            channel.state() == self.state().in1,
    {
        &self.in1
    }
}

impl<C: PwmChannel> crate::DirectionalPwmMotor for DirectionalPwmMotorDriver<C> {
    /// The duty ceiling read when the driver was built.
    fn max_duty(&self) -> (max_duty: u32)
        ensures
            max_duty == self.state().max_duty,
    {
        self.max_duty
    }

    /// Sets the channel to `duty`.
    fn start(&mut self, duty: u32) -> (result: Result<(), HardwareFault>)
        ensures
            set_to(old(self).state(), final(self).state(), duty, result),
    {
        self.in1.set_duty(duty)
    }

    /// Sets the channel to duty zero.
    fn stop(&mut self) -> (result: Result<(), HardwareFault>)
        ensures
            set_to(old(self).state(), final(self).state(), 0, result),
    {
        self.in1.set_duty(0)
    }
}

impl<C: PwmChannel> crate::DirectionalMotor for DirectionalPwmMotorDriver<C> {
    /// Sets the channel to the duty ceiling.
    fn start(&mut self) -> (result: Result<(), HardwareFault>)
        ensures
            set_to(old(self).state(), final(self).state(), old(self).state().max_duty, result),
    {
        let duty = crate::DirectionalPwmMotor::max_duty(self);
        crate::DirectionalPwmMotor::start(self, duty)
    }

    /// Sets the channel to duty zero.
    fn stop(&mut self) -> (result: Result<(), HardwareFault>)
        ensures
            set_to(old(self).state(), final(self).state(), 0, result),
    {
        crate::DirectionalPwmMotor::stop(self)
    }
}

/// Setting a duty keeps the ceiling of the driver and of the channel, so a
/// channel that shares the driver's ceiling goes on sharing it.
pub proof fn setting_keeps_ceiling(
    pre: PwmDriveState,
    post: PwmDriveState,
    duty: u32,
    result: Result<(), HardwareFault>,
)
    requires
        set_to(pre, post, duty, result),
    ensures
        post.max_duty == pre.max_duty,
        post.in1.max_duty == pre.in1.max_duty,
        pre.shares_ceiling() ==> post.shares_ceiling(),
{
}

/// A binary start that succeeds leaves the channel generating at the ceiling.
pub proof fn full_scale_start(
    pre: PwmDriveState,
    post: PwmDriveState,
    result: Result<(), HardwareFault>,
)
    requires
        pre.shares_ceiling(),
        set_to(pre, post, pre.max_duty, result),
        result is Ok,
    ensures
        post.in1.duty == post.max_duty,
        post.in1.enabled,
{
}

/// A stop that succeeds leaves the channel at duty zero, whatever its
/// ceiling.
pub proof fn stop_zeroes_duty(
    pre: PwmDriveState,
    post: PwmDriveState,
    result: Result<(), HardwareFault>,
)
    requires
        set_to(pre, post, 0, result),
        result is Ok,
    ensures
        post.in1.duty == 0,
{
}

} // verus!
