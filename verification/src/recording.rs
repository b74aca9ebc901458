//! In-memory lines and channels for running drivers off target: they keep
//! what they were last commanded and a record of every command, and can be
//! told to start refusing commands after a given number of them.

use vstd::prelude::*;
use crate::channel::{ChannelCall, ChannelCommand, ChannelState, PwmChannel};
use crate::delay::{Delay, DelayState};
use crate::fault::HardwareFault;
use crate::line::{Level, LineState, LineWrite, OutputLine};

verus! {

/// A digital output line held in memory.
pub struct RecordingLine {
    level: Level,
    writes: Vec<LineWrite>,
    healthy_writes: Option<usize>,
    fault: HardwareFault,
}

impl RecordingLine {
    /// Writes that will still succeed before the line starts to refuse them;
    /// `None` for a line that never refuses.
    pub closed spec fn healthy_writes(&self) -> Option<usize> {
        self.healthy_writes
    }

    /// The fault with which the line refuses a write.
    pub closed spec fn fault(&self) -> HardwareFault {
        self.fault
    }

    /// What the line answers to its next write.
    pub open spec fn next_outcome(&self) -> Result<(), HardwareFault> {
        if self.healthy_writes() == Some(0usize) {
            Err(self.fault())
        } else {
            Ok(())
        }
    }

    /// `post` is this line after one attempt to drive it to `level`: a
    /// healthy line takes the level and has one healthy write less, a line
    /// out of healthy writes keeps its level. Either way the attempt is
    /// recorded with its outcome.
    pub open spec fn written(&self, post: &Self, level: Level) -> bool {
        let outcome = self.next_outcome();
        &&& post.state().writes == self.state().writes.push(LineWrite { level, outcome })
        &&& post.state().level == (if outcome is Ok {
            level
        } else {
            self.state().level
        })
        &&& post.fault() == self.fault()
        &&& post.healthy_writes() == (match self.healthy_writes() {
            Some(n) if n > 0 => Some((n - 1) as usize),
            other => other,
        })
    }

    /// A line at `level` that accepts every write.
    pub fn new(level: Level) -> (line: Self)
        ensures
            line.state() == (LineState { level, writes: Seq::empty() }),
            line.healthy_writes() is None,
    {
        RecordingLine {
            level,
            writes: Vec::new(),
            healthy_writes: None,
            fault: HardwareFault { code: 0 },
        }
    }

    /// A line at `level` that accepts `healthy_writes` writes and answers
    /// every later one with `fault`.
    pub fn failing_after(level: Level, healthy_writes: usize, fault: HardwareFault) -> (line: Self)
        ensures
            line.state() == (LineState { level, writes: Seq::empty() }),
            line.healthy_writes() == Some(healthy_writes),
            line.fault() == fault,
    {
        RecordingLine { level, writes: Vec::new(), healthy_writes: Some(healthy_writes), fault }
    }

    /// The level the line currently drives.
    pub fn level(&self) -> (level: Level)
        ensures
            level == self.state().level,
    {
        self.level
    }

    /// Every write attempted so far, oldest first.
    pub fn writes(&self) -> (writes: &Vec<LineWrite>)
        ensures
            writes@ == self.state().writes,
    {
        &self.writes
    }

    /// Attempts one write and records it.
    fn drive(&mut self, level: Level) -> (outcome: Result<(), HardwareFault>)
        ensures
            outcome == old(self).next_outcome(),
            old(self).written(final(self), level),
    {
        let outcome = match self.healthy_writes {
            Some(n) => {
                if n == 0 {
                    Err(self.fault)
                } else {
                    self.healthy_writes = Some(n - 1);
                    Ok(())
                }
            },
            None => Ok(()),
        };
        if outcome.is_ok() {
            self.level = level;
        }
        self.writes.push(LineWrite { level, outcome });
        outcome
    }
}

impl OutputLine for RecordingLine {
    closed spec fn state(&self) -> LineState {
        LineState { level: self.level, writes: self.writes@ }
    }

    fn set_high(&mut self) -> (outcome: Result<(), HardwareFault>)
        ensures
            outcome == old(self).next_outcome(),
            old(self).written(final(self), Level::High),
    {
        self.drive(Level::High)
    }

    fn set_low(&mut self) -> (outcome: Result<(), HardwareFault>)
        ensures
            outcome == old(self).next_outcome(),
            old(self).written(final(self), Level::Low),
    {
        self.drive(Level::Low)
    }

    fn is_set_high(&self) -> (high: bool) {
        self.level == Level::High
    }

    fn is_set_low(&self) -> (low: bool) {
        self.level == Level::Low
    }
}

/// A PWM channel held in memory. A duty above the ceiling is cut to the
/// ceiling.
pub struct RecordingChannel {
    max_duty: u32,
    duty: u32,
    enabled: bool,
    calls: Vec<ChannelCall>,
    healthy_calls: Option<usize>,
    fault: HardwareFault,
}

impl RecordingChannel {
    /// Commands that will still succeed before the channel starts to refuse
    /// them; `None` for a channel that never refuses.
    pub closed spec fn healthy_calls(&self) -> Option<usize> {
        self.healthy_calls
    }

    /// The fault with which the channel refuses a command.
    pub closed spec fn fault(&self) -> HardwareFault {
        self.fault
    }

    /// What the channel answers to its next command.
    pub open spec fn next_outcome(&self) -> Result<(), HardwareFault> {
        if self.healthy_calls() == Some(0usize) {
            Err(self.fault())
        } else {
            Ok(())
        }
    }

    /// `post` is this channel after one attempt at `command`: a healthy
    /// channel carries it out, cutting a duty above the ceiling to the
    /// ceiling, and has one healthy command less; a channel out of healthy
    /// commands stays as it is. Either way the attempt is recorded with its
    /// outcome.
    pub open spec fn carried_out(&self, post: &Self, command: ChannelCommand) -> bool {
        let outcome = self.next_outcome();
        let pre = self.state();
        &&& post.state().max_duty == pre.max_duty
        &&& post.state().calls == pre.calls.push(ChannelCall { command, outcome })
        &&& post.state().duty == (match command {
            ChannelCommand::SetDuty(duty) if outcome is Ok => if duty <= pre.max_duty {
                duty
            } else {
                pre.max_duty
            },
            _ => pre.duty,
        })
        &&& post.state().enabled == (if outcome is Ok {
            command != ChannelCommand::Disable
        } else {
            pre.enabled
        })
        &&& post.fault() == self.fault()
        &&& post.healthy_calls() == (match self.healthy_calls() {
            Some(n) if n > 0 => Some((n - 1) as usize),
            other => other,
        })
    }

    /// A channel with ceiling `max_duty`, at duty 0 and generating, that
    /// accepts every command.
    pub fn new(max_duty: u32) -> (channel: Self)
        ensures
            channel.state() == (ChannelState {
                max_duty,
                duty: 0,
                enabled: true,
                calls: Seq::empty(),
            }),
            channel.healthy_calls() is None,
    {
        RecordingChannel {
            max_duty,
            duty: 0,
            enabled: true,
            calls: Vec::new(),
            healthy_calls: None,
            fault: HardwareFault { code: 0 },
        }
    }

    /// A channel with ceiling `max_duty`, at duty 0 and generating, that
    /// accepts `healthy_calls` commands and answers every later one with
    /// `fault`.
    pub fn failing_after(max_duty: u32, healthy_calls: usize, fault: HardwareFault) -> (channel:
        Self)
        ensures
            channel.state() == (ChannelState {
                max_duty,
                duty: 0,
                enabled: true,
                calls: Seq::empty(),
            }),
            channel.healthy_calls() == Some(healthy_calls),
            channel.fault() == fault,
    {
        RecordingChannel {
            max_duty,
            duty: 0,
            enabled: true,
            calls: Vec::new(),
            healthy_calls: Some(healthy_calls),
            fault,
        }
    }

    /// The duty last set.
    pub fn duty(&self) -> (duty: u32)
        ensures
            duty == self.state().duty,
    {
        self.duty
    }

    /// Whether the channel is generating.
    pub fn enabled(&self) -> (enabled: bool)
        ensures
            enabled == self.state().enabled,
    {
        self.enabled
    }

    /// Every command attempted so far, oldest first.
    pub fn calls(&self) -> (calls: &Vec<ChannelCall>)
        ensures
            calls@ == self.state().calls,
    {
        &self.calls
    }

    /// Attempts one command and records it.
    fn command(&mut self, command: ChannelCommand) -> (outcome: Result<(), HardwareFault>)
        ensures
            outcome == old(self).next_outcome(),
            old(self).carried_out(final(self), command),
    {
        let outcome = match self.healthy_calls {
            Some(n) => {
                if n == 0 {
                    Err(self.fault)
                } else {
                    self.healthy_calls = Some(n - 1);
                    Ok(())
                }
            },
            None => Ok(()),
        };
        if outcome.is_ok() {
            match command {
                ChannelCommand::SetDuty(duty) => {
                    self.duty = if duty <= self.max_duty {
                        duty
                    } else {
                        self.max_duty
                    };
                    self.enabled = true;
                },
                ChannelCommand::Enable => {
                    self.enabled = true;
                },
                ChannelCommand::Disable => {
                    self.enabled = false;
                },
            }
        }
        self.calls.push(ChannelCall { command, outcome });
        outcome
    }
}

impl PwmChannel for RecordingChannel {
    closed spec fn state(&self) -> ChannelState {
        ChannelState {
            max_duty: self.max_duty,
            duty: self.duty,
            enabled: self.enabled,
            calls: self.calls@,
        }
    }

    fn get_max_duty(&self) -> (max_duty: u32) {
        self.max_duty
    }

    fn set_duty(&mut self, duty: u32) -> (outcome: Result<(), HardwareFault>)
        ensures
            outcome == old(self).next_outcome(),
            old(self).carried_out(final(self), ChannelCommand::SetDuty(duty)),
    {
        self.command(ChannelCommand::SetDuty(duty))
    }

    fn enable(&mut self) -> (outcome: Result<(), HardwareFault>)
        ensures
            outcome == old(self).next_outcome(),
            old(self).carried_out(final(self), ChannelCommand::Enable),
    {
        self.command(ChannelCommand::Enable)
    }

    fn disable(&mut self) -> (outcome: Result<(), HardwareFault>)
        ensures
            outcome == old(self).next_outcome(),
            old(self).carried_out(final(self), ChannelCommand::Disable),
    {
        self.command(ChannelCommand::Disable)
    }
}

/// A delay that returns at once and keeps a record of what was asked of it.
pub struct RecordingDelay {
    elapsed: Vec<u32>,
}

impl RecordingDelay {
    /// A delay that has served nothing yet.
    pub fn new() -> (delay: Self)
        ensures
            delay.state().served == Seq::<u32>::empty(),
    {
        RecordingDelay { elapsed: Vec::new() }
    }

    /// Every delay asked for so far in milliseconds, oldest first.
    pub fn served(&self) -> (served: &Vec<u32>)
        ensures
            served@ == self.state().served,
    {
        &self.elapsed
    }
}

impl Delay for RecordingDelay {
    closed spec fn state(&self) -> DelayState {
        DelayState { served: self.elapsed@ }
    }

    fn delay_ms(&mut self, ms: u32) {
        self.elapsed.push(ms);
    }
}

} // verus!
