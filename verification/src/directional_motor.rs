//! The discrete half-bridge driver: one output line, on or off.

use vstd::prelude::*;
use crate::fault::HardwareFault;
use crate::line::{wrote, Level, LineState, OutputLine};

verus! {

/// Driver of a motor switched by one binary input.
pub struct DirectionalMotorDriver<L: OutputLine> {
    in1: L,
}

impl<L: OutputLine> DirectionalMotorDriver<L> {
    /// The state of the line the driver owns.
    pub closed spec fn state(&self) -> LineState {
        self.in1.state()
    }

    /// Takes ownership of the line. Nothing is written: the motor stays as
    /// the line was left.
    pub fn new(in1: L) -> (driver: Self)
        ensures
            driver.state() == in1.state(),
    {
        DirectionalMotorDriver { in1 }
    }

    /// The line.
    pub fn in1(&self) -> (line: &L)
        ensures
            line.state() == self.state(),
    {
        &self.in1
    }
}

impl<L: OutputLine> crate::DirectionalMotor for DirectionalMotorDriver<L> {
    /// Drives the line high, once.
    fn start(&mut self) -> (result: Result<(), HardwareFault>)
        ensures
            wrote(old(self).state(), final(self).state(), Level::High, result),
    {
        self.in1.set_high()
    }

    /// Drives the line low, once.
    fn stop(&mut self) -> (result: Result<(), HardwareFault>)
        ensures
            wrote(old(self).state(), final(self).state(), Level::Low, result),
    {
        self.in1.set_low()
    }
}

} // verus!
