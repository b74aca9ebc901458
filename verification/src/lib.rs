//! Motor drive models for small controllers: discrete and PWM half- and
//! full-bridge drivers over exclusively owned output lines and PWM channels,
//! and a sleep/wake gate for the driver chip's enable line.
//!
//! A driver owns its lines or channels and keeps no state of its own beside
//! a duty ceiling: what the motor does is what the lines and channels were
//! last told. Every operation hands the first hardware fault to its caller
//! at once and leaves what it had not yet written untouched; nothing is
//! retried.
//!
//! The drive traits below let callers be written over the shape of a drive
//! rather than over one driver. What a call does to the hardware is stated
//! by each driver on its own implementation.

use vstd::prelude::*;
use crate::fault::HardwareFault;

pub mod bidirectional_motor;
pub mod bidirectional_pwm_motor;
pub mod channel;
pub mod delay;
pub mod directional_motor;
pub mod directional_pwm_motor;
pub mod fault;
pub mod line;
pub mod recording;
pub mod single_motor;
pub mod single_pwm_motor;
pub mod sleep;

verus! {

/// Single-direction drive without speed control.
pub trait DirectionalMotor {
    /// Runs the motor.
    fn start(&mut self) -> Result<(), HardwareFault>;

    /// Stops the motor.
    fn stop(&mut self) -> Result<(), HardwareFault>;
}

/// Full directional drive without speed control.
pub trait BidirectionalMotor {
    /// Runs the motor forward.
    fn forward(&mut self) -> Result<(), HardwareFault>;

    /// Runs the motor backward.
    fn backward(&mut self) -> Result<(), HardwareFault>;

    /// Shorts the motor so that it resists turning.
    fn brake(&mut self) -> Result<(), HardwareFault>;

    /// Lets the motor turn freely.
    fn coast(&mut self) -> Result<(), HardwareFault>;
}

/// Single-direction drive with speed control.
pub trait DirectionalPwmMotor {
    /// Runs the motor at `duty` out of `max_duty()`.
    fn start(&mut self, duty: u32) -> Result<(), HardwareFault>;

    /// Stops the motor.
    fn stop(&mut self) -> Result<(), HardwareFault>;

    /// The duty that stands for full drive.
    fn max_duty(&self) -> u32;
}

/// Full directional drive with speed control.
pub trait BidirectionalPwmMotor {
    /// Runs the motor forward at `duty` out of `max_duty()`.
    fn forward(&mut self, duty: u32) -> Result<(), HardwareFault>;

    /// Runs the motor backward at `duty` out of `max_duty()`.
    fn backward(&mut self, duty: u32) -> Result<(), HardwareFault>;

    /// Shorts the motor so that it resists turning.
    fn brake(&mut self) -> Result<(), HardwareFault>;

    /// Lets the motor turn freely.
    fn coast(&mut self) -> Result<(), HardwareFault>;

    /// The duty that stands for full drive.
    fn max_duty(&self) -> u32;
}

} // verus!
