//! The PWM channel capability: one duty-settable output with a fixed duty
//! ceiling whose generation can be switched on and off.

use vstd::prelude::*;
use crate::fault::HardwareFault;

verus! {

/// A command that a PWM channel accepts.
#[derive(Clone, Copy, Debug, PartialEq, Eq, Structural)]
pub enum ChannelCommand {
    /// Generate PWM at this duty.
    SetDuty(u32),
    /// Resume generation at the duty last set.
    Enable,
    /// Stop generation; the duty last set is kept.
    Disable,
}

/// One command attempted on a channel, with what the hardware answered.
#[derive(Clone, Copy, Debug, PartialEq, Eq)]
pub struct ChannelCall {
    pub command: ChannelCommand,
    pub outcome: Result<(), HardwareFault>,
}

/// What is known of a channel: its duty ceiling, the duty last set, whether
/// it is generating, and every command attempted on it so far, oldest first.
pub struct ChannelState {
    pub max_duty: u32,
    pub duty: u32,
    pub enabled: bool,
    pub calls: Seq<ChannelCall>,
}

/// `post` is `pre` after one attempt at `command` that the hardware answered
/// with `outcome`. The ceiling never changes. A duty within the ceiling that
/// was set successfully is the channel's duty, and the channel generates;
/// what a duty above the ceiling becomes is left to the hardware. Enabling
/// and disabling keep the duty. After a failed command duty and generation
/// are indeterminate.
pub open spec fn commanded(
    pre: ChannelState,
    post: ChannelState,
    command: ChannelCommand,
    outcome: Result<(), HardwareFault>,
) -> bool {
    &&& post.max_duty == pre.max_duty
    &&& post.calls == pre.calls.push(ChannelCall { command, outcome })
    &&& outcome is Ok ==> match command {
        ChannelCommand::SetDuty(duty) => post.enabled && (duty <= pre.max_duty ==> post.duty
            == duty),
        ChannelCommand::Enable => post.enabled && post.duty == pre.duty,
        ChannelCommand::Disable => !post.enabled && post.duty == pre.duty,
    }
}

/// An exclusively owned PWM channel.
pub trait PwmChannel {
    /// The channel's ceiling, duty, generation and command history.
    spec fn state(&self) -> ChannelState;

    /// The duty ceiling, fixed by the resolution of the channel's timer.
    fn get_max_duty(&self) -> (max_duty: u32)
        ensures
            max_duty == self.state().max_duty,
    ;

    /// Sets the duty and generates PWM at it.
    fn set_duty(&mut self, duty: u32) -> (outcome: Result<(), HardwareFault>)
        ensures
            commanded(
                old(self).state(),
                final(self).state(),
                ChannelCommand::SetDuty(duty),
                outcome,
            ),
    ;

    /// Resumes generation at the duty last set.
    fn enable(&mut self) -> (outcome: Result<(), HardwareFault>)
        ensures
            commanded(old(self).state(), final(self).state(), ChannelCommand::Enable, outcome),
    ;

    /// Stops generation and keeps the duty last set.
    fn disable(&mut self) -> (outcome: Result<(), HardwareFault>)
        ensures
            commanded(old(self).state(), final(self).state(), ChannelCommand::Disable, outcome),
    ;
}

/// Attempts `command` on `channel`.
pub(crate) fn issue<C: PwmChannel>(channel: &mut C, command: ChannelCommand) -> (outcome: Result<
    (),
    HardwareFault,
>)
    ensures
        commanded(old(channel).state(), final(channel).state(), command, outcome),
{
    match command {
        ChannelCommand::SetDuty(duty) => channel.set_duty(duty),
        ChannelCommand::Enable => channel.enable(),
        ChannelCommand::Disable => channel.disable(),
    }
}

} // verus!
