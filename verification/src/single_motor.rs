//! A discrete full-bridge driver with the four transitions as methods of its
//! own, for callers that do not go through a drive trait.

use vstd::prelude::*;
use crate::bidirectional_motor::{drove, BridgeState};
use crate::fault::HardwareFault;
use crate::line::{Level, OutputLine};

verus! {

/// Driver of one motor on an H-bridge with two binary inputs.
pub struct SingleMotor<L1: OutputLine, L2: OutputLine> {
    in1: L1,
    in2: L2,
}

impl<L1: OutputLine, L2: OutputLine> SingleMotor<L1, L2> {
    /// The state of the two lines the driver owns.
    pub closed spec fn state(&self) -> BridgeState {
        BridgeState { in1: self.in1.state(), in2: self.in2.state() }
    }

    /// Takes ownership of the two lines. Nothing is written: the bridge stays
    /// as the lines were left.
    pub fn new(in1: L1, in2: L2) -> (motor: Self)
        ensures
            motor.state() == (BridgeState { in1: in1.state(), in2: in2.state() }),
    {
        SingleMotor { in1, in2 }
    }

    /// The first line.
    pub fn in1(&self) -> (line: &L1)
        ensures
            line.state() == self.state().in1,
    {
        &self.in1
    }

    /// The second line.
    pub fn in2(&self) -> (line: &L2)
        ensures
            line.state() == self.state().in2,
    {
        &self.in2
    }

    /// First line high, second line low.
    pub fn forward(&mut self) -> (result: Result<(), HardwareFault>)
        ensures
            drove(old(self).state(), final(self).state(), Level::High, Level::Low, result),
    {
        match self.in1.set_high() {
            Err(fault) => Err(fault),
            Ok(()) => self.in2.set_low(),
        }
    }

    /// First line low, second line high.
    pub fn backward(&mut self) -> (result: Result<(), HardwareFault>)
        ensures
            drove(old(self).state(), final(self).state(), Level::Low, Level::High, result),
    {
        match self.in1.set_low() {
            Err(fault) => Err(fault),
            Ok(()) => self.in2.set_high(),
        }
    }

    /// Both lines high.
    pub fn brake(&mut self) -> (result: Result<(), HardwareFault>)
        ensures
            drove(old(self).state(), final(self).state(), Level::High, Level::High, result),
    {
        match self.in1.set_high() {
            Err(fault) => Err(fault),
            Ok(()) => self.in2.set_high(),
        }
    }

    /// Both lines low.
    pub fn coast(&mut self) -> (result: Result<(), HardwareFault>)
        ensures
            drove(old(self).state(), final(self).state(), Level::Low, Level::Low, result),
    {
        match self.in1.set_low() {
            Err(fault) => Err(fault),
            Ok(()) => self.in2.set_low(),
        }
    }
}

} // verus!
