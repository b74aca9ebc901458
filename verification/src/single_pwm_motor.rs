//! A PWM full-bridge driver with the four transitions as methods of its own,
//! for callers that do not go through a drive trait.

use vstd::prelude::*;
use crate::bidirectional_pwm_motor::{commanded_pair, PwmBridgeState};
use crate::channel::{ChannelCommand, PwmChannel};
use crate::fault::{ConfigurationError, HardwareFault};

verus! {

/// Driver of one motor on an H-bridge with two PWM inputs that share one
/// duty ceiling.
pub struct SinglePwmMotor<C1: PwmChannel, C2: PwmChannel> {
    in1: C1,
    in2: C2,
    max_duty: u32,
}

impl<C1: PwmChannel, C2: PwmChannel> SinglePwmMotor<C1, C2> {
    /// The ceiling the driver works with and the state of the two channels
    /// it owns.
    pub closed spec fn state(&self) -> PwmBridgeState {
        PwmBridgeState {
            max_duty: self.max_duty,
            in1: self.in1.state(),
            in2: self.in2.state(),
        }
    }

    /// Takes ownership of the two channels if they report the same duty
    /// ceiling, which the driver keeps, and refuses them with both ceilings
    /// otherwise. No command is issued either way.
    pub fn new(in1: C1, in2: C2) -> (built: Result<Self, ConfigurationError>)
        ensures
            match built {
                Ok(motor) => {
                    &&& in1.state().max_duty == in2.state().max_duty
                    &&& motor.state() == (PwmBridgeState {
                        max_duty: in1.state().max_duty,
                        in1: in1.state(),
                        in2: in2.state(),
                    })
                },
                Err(error) => {
                    &&& in1.state().max_duty != in2.state().max_duty
                    &&& error == (ConfigurationError {
                        in1_max_duty: in1.state().max_duty,
                        in2_max_duty: in2.state().max_duty,
                    })
                },
            },
    {
        let in1_max_duty = in1.get_max_duty();
        let in2_max_duty = in2.get_max_duty();
        if in1_max_duty != in2_max_duty {
            return Err(ConfigurationError { in1_max_duty, in2_max_duty });
        }
        Ok(SinglePwmMotor { in1, in2, max_duty: in1_max_duty })
    }

    /// The first channel.
    pub fn in1(&self) -> (channel: &C1)
        ensures
            channel.state() == self.state().in1,
    {
        &self.in1
    }

    /// The second channel.
    pub fn in2(&self) -> (channel: &C2)
        ensures
            channel.state() == self.state().in2,
    {
        &self.in2
    }

    /// The first channel generates at `duty`, the second is disabled.
    pub fn forward(&mut self, duty: u32) -> (result: Result<(), HardwareFault>)
        ensures
            commanded_pair(
                old(self).state(),
                final(self).state(),
                ChannelCommand::SetDuty(duty),
                ChannelCommand::Disable,
                result,
            ),
    {
        match self.in1.set_duty(duty) {
            Err(fault) => Err(fault),
            Ok(()) => self.in2.disable(),
        }
    }

    /// The first channel is disabled, the second generates at `duty`.
    pub fn backward(&mut self, duty: u32) -> (result: Result<(), HardwareFault>)
        ensures
            commanded_pair(
                old(self).state(),
                final(self).state(),
                ChannelCommand::Disable,
                ChannelCommand::SetDuty(duty),
                result,
            ),
    {
        match self.in1.disable() {
            Err(fault) => Err(fault),
            Ok(()) => self.in2.set_duty(duty),
        }
    }

    /// Both channels are disabled.
    pub fn coast(&mut self) -> (result: Result<(), HardwareFault>)
        ensures
            commanded_pair(
                old(self).state(),
                final(self).state(),
                ChannelCommand::Disable,
                ChannelCommand::Disable,
                result,
            ),
    {
        match self.in1.disable() {
            Err(fault) => Err(fault),
            Ok(()) => self.in2.disable(),
        }
    }

    /// Both channels generate again, each at the duty it was last set to.
    pub fn brake(&mut self) -> (result: Result<(), HardwareFault>)
        ensures
            commanded_pair(
                old(self).state(),
                final(self).state(),
                ChannelCommand::Enable,
                ChannelCommand::Enable,
                result,
            ),
    {
        match self.in1.enable() {
            Err(fault) => Err(fault),
            Ok(()) => self.in2.enable(),
        }
    }

    /// The duty ceiling that both channels were found to share when the
    /// driver was built.
    #[must_use]
    pub fn max_duty(&self) -> (max_duty: u32)
        ensures
            max_duty == self.state().max_duty,
    {
        self.max_duty
    }
}

} // verus!
