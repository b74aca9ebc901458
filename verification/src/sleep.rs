//! The sleep/wake gate: an optional enable line that powers the motor driver
//! chip only while it is needed. The chip is awake while the line is high.

use vstd::prelude::*;
use crate::delay::Delay;
use crate::fault::HardwareFault;
use crate::line::{wrote, Level, LineState, LineWrite, OutputLine};

verus! {

/// Milliseconds the chip needs after its enable line went high before it
/// answers to drive signals.
pub const SETTLE_MS: u32 = 1;

/// The enable line of a gate, or its absence.
pub enum Gate<L> {
    /// The chip's power follows this line.
    Gated(L),
    /// There is no enable line: the chip is always powered.
    Ungated,
}

/// A gate: its enable line, if it has one, and the delays it has waited.
pub struct GateState {
    pub line: Option<LineState>,
    pub delays: Seq<u32>,
}

impl GateState {
    /// The chip is powered down: there is an enable line and it is low.
    pub open spec fn asleep(self) -> bool {
        self.line is Some && self.line->Some_0.level == Level::Low
    }

    /// The chip is powered: there is no enable line, or it is high.
    pub open spec fn awake(self) -> bool {
        !self.asleep()
    }
}

/// `post` is `pre` after one `sleep` that ended in `result`: an enable line
/// that was high is written low, once; otherwise nothing happens and the call
/// succeeds. No delay is waited.
pub open spec fn slept(pre: GateState, post: GateState, result: Result<(), HardwareFault>) -> bool {
    if pre.line is Some && pre.awake() {
        &&& post.line is Some
        &&& wrote(pre.line->Some_0, post.line->Some_0, Level::Low, result)
        &&& post.delays == pre.delays
    } else {
        post == pre && result is Ok
    }
}

/// `post` is `pre` after one `wakeup` that ended in `result`: an enable line
/// that was low is written high, once, and if that succeeded the settle delay
/// is waited, once; otherwise nothing happens and the call succeeds.
pub open spec fn woke(pre: GateState, post: GateState, result: Result<(), HardwareFault>) -> bool {
    if pre.asleep() {
        &&& post.line is Some
        &&& wrote(pre.line->Some_0, post.line->Some_0, Level::High, result)
        &&& post.delays == (if result is Ok {
            pre.delays.push(SETTLE_MS)
        } else {
            pre.delays
        })
    } else {
        post == pre && result is Ok
    }
}

/// `post` is `pre` after `function` was run between one `wakeup` and one
/// `sleep`. The chip is woken first. If that fails, `function` is not run and
/// the fault is the result. Otherwise `function` is run and its value kept.
/// Either way the chip is then sent to sleep, once. The value is the result
/// unless that last `sleep` failed after a `wakeup` that succeeded: then its
/// fault is.
pub open spec fn bracketed<F: FnOnce() -> U, U>(
    pre: GateState,
    post: GateState,
    function: F,
    result: Result<U, HardwareFault>,
) -> bool {
    exists|woken: GateState, wake: Result<(), HardwareFault>, sleep: Result<(), HardwareFault>|
        #![trigger woke(pre, woken, wake), slept(woken, post, sleep)]
        {
            &&& woke(pre, woken, wake)
            &&& slept(woken, post, sleep)
            &&& match (wake, sleep) {
                (Err(fault), _) => result == Err::<U, HardwareFault>(fault),
                (Ok(()), Err(fault)) => result == Err::<U, HardwareFault>(fault),
                (Ok(()), Ok(())) => result is Ok && call_ensures(function, (), result->Ok_0),
            }
        }
}

/// Power gate of a motor driver chip.
pub struct Sleep<L: OutputLine, D: Delay> {
    gate: Gate<L>,
    delay: D,
}

impl<L: OutputLine, D: Delay> Sleep<L, D> {
    /// The state of the enable line, if there is one, and the delays waited.
    pub closed spec fn state(&self) -> GateState {
        GateState {
            line: match self.gate {
                Gate::Gated(line) => Some(line.state()),
                Gate::Ungated => None,
            },
            delays: self.delay.state().served,
        }
    }

    /// Takes ownership of the enable line, if there is one, and of the delay.
    /// Nothing is written and nothing waited.
    pub fn new(gate: Gate<L>, delay: D) -> (sleep: Self)
        ensures
            sleep.state() == (GateState {
                line: match gate {
                    Gate::Gated(line) => Some(line.state()),
                    Gate::Ungated => None,
                },
                delays: delay.state().served,
            }),
    {
        Sleep { gate, delay }
    }

    /// The enable line, or its absence.
    pub fn gate(&self) -> (gate: &Gate<L>)
        ensures
            self.state().line == (match *gate {
                Gate::Gated(line) => Some(line.state()),
                Gate::Ungated => None,
            }),
    {
        &self.gate
    }

    /// The delay.
    pub fn delay(&self) -> (delay: &D)
        ensures
            delay.state().served == self.state().delays,
    {
        &self.delay
    }

    /// Powers the chip down if it is powered and there is an enable line.
    pub fn sleep(&mut self) -> (result: Result<(), HardwareFault>)
        ensures
            slept(old(self).state(), final(self).state(), result),
    {
        match &mut self.gate {
            Gate::Gated(line) => {
                if line.is_set_high() {
                    line.set_low()
                } else {
                    Ok(())
                }
            },
            Gate::Ungated => Ok(()),
        }
    }

    /// Whether the chip is powered down.
    #[must_use]
    pub fn asleep(&self) -> (asleep: bool)
        ensures
            asleep == self.state().asleep(),
    {
        match &self.gate {
            Gate::Gated(line) => line.is_set_low(),
            Gate::Ungated => false,
        }
    }

    /// Whether the chip is powered.
    #[must_use]
    pub fn awake(&self) -> (awake: bool)
        ensures
            awake == self.state().awake(),
    {
        match &self.gate {
            Gate::Gated(line) => line.is_set_high(),
            Gate::Ungated => true,
        }
    }

    /// Powers the chip up if it is powered down, and waits until it has
    /// settled.
    pub fn wakeup(&mut self) -> (result: Result<(), HardwareFault>)
        ensures
            woke(old(self).state(), final(self).state(), result),
    {
        let asleep = self.asleep();
        if !asleep {
            return Ok(());
        }
        let raised = match &mut self.gate {
            Gate::Gated(line) => line.set_high(),
            Gate::Ungated => Ok(()),
        };
        if raised.is_ok() {
            self.delay.delay_ms(SETTLE_MS);
        }
        raised
    }

    /// Runs `function` with the chip powered: wakes the chip, runs
    /// `function`, and sends the chip back to sleep.
    pub fn do_while_awake<F: FnOnce() -> U, U>(&mut self, function: F) -> (result: Result<
        U,
        HardwareFault,
    >)
        requires
            call_requires(function, ()),
        ensures
            bracketed(old(self).state(), final(self).state(), function, result),
    {
        let wake = self.wakeup();
        let ghost woken = self.state();
        match wake {
            Err(fault) => {
                let sleep = self.sleep();
                assert(woke(old(self).state(), woken, wake) && slept(woken, self.state(), sleep));
                Err(fault)
            },
            Ok(()) => {
                let value = function();
                let sleep = self.sleep();
                assert(woke(old(self).state(), woken, wake) && slept(woken, self.state(), sleep));
                match sleep {
                    Ok(()) => Ok(value),
                    Err(fault) => Err(fault),
                }
            },
        }
    }
}

/// A `sleep` that succeeds on a gate with an enable line leaves it asleep.
pub proof fn sleep_leaves_gate_asleep(
    pre: GateState,
    post: GateState,
    result: Result<(), HardwareFault>,
)
    requires
        pre.line is Some,
        slept(pre, post, result),
        result is Ok,
    ensures
        post.asleep(),
{
}

/// A `wakeup` that succeeds leaves the chip awake.
pub proof fn wakeup_leaves_gate_awake(
    pre: GateState,
    post: GateState,
    result: Result<(), HardwareFault>,
)
    requires
        woke(pre, post, result),
        result is Ok,
    ensures
        post.awake(),
{
}

/// Sleeping twice is sleeping once: after a `sleep` that succeeded, or that
/// left the chip asleep all the same, a second one changes nothing and
/// succeeds.
pub proof fn sleep_is_idempotent(
    before: GateState,
    once: GateState,
    twice: GateState,
    first: Result<(), HardwareFault>,
    second: Result<(), HardwareFault>,
)
    requires
        slept(before, once, first),
        slept(once, twice, second),
        first is Ok || once.asleep(),
    ensures
        twice == once,
        second is Ok,
{
}

/// Waking twice is waking once: after a `wakeup` that succeeded, or that left
/// the chip awake all the same, a second one changes nothing, waits for
/// nothing and succeeds.
pub proof fn wakeup_is_idempotent(
    before: GateState,
    once: GateState,
    twice: GateState,
    first: Result<(), HardwareFault>,
    second: Result<(), HardwareFault>,
)
    requires
        woke(before, once, first),
        woke(once, twice, second),
        first is Ok || once.awake(),
    ensures
        twice == once,
        second is Ok,
{
}

/// A gate without an enable line is always awake, and sleeping and waking
/// leave it as it is and succeed.
pub proof fn ungated_gate_is_inert(
    pre: GateState,
    post: GateState,
    result: Result<(), HardwareFault>,
)
    requires
        pre.line is None,
        slept(pre, post, result) || woke(pre, post, result),
    ensures
        pre.awake(),
        !pre.asleep(),
        post == pre,
        result is Ok,
{
}

/// On a gate without an enable line, running a function between `wakeup` and
/// `sleep` is running the function: the state stays as it is and the
/// function's value is the result.
pub proof fn ungated_bracket_only_runs<F: FnOnce() -> U, U>(
    pre: GateState,
    post: GateState,
    function: F,
    result: Result<U, HardwareFault>,
)
    requires
        pre.line is None,
        bracketed(pre, post, function, result),
    ensures
        post == pre,
        result is Ok,
        call_ensures(function, (), result->Ok_0),
{
}

/// A function run between `wakeup` and `sleep` on a gate with an enable line,
/// when the whole succeeds, leaves the chip asleep. The line was written high
/// before the function ran, once and followed by one settle delay, if the chip
/// was asleep, and not at all if it was awake; and it was written low after
/// the function ran, once. The function's value is the result.
pub proof fn bracket_leaves_gate_asleep<F: FnOnce() -> U, U>(
    pre: GateState,
    post: GateState,
    function: F,
    result: Result<U, HardwareFault>,
)
    requires
        pre.line is Some,
        bracketed(pre, post, function, result),
        result is Ok,
    ensures
        post.asleep(),
        call_ensures(function, (), result->Ok_0),
        pre.asleep() ==> {
            &&& post.line->Some_0.writes == pre.line->Some_0.writes.push(
                LineWrite { level: Level::High, outcome: Ok(()) },
            ).push(LineWrite { level: Level::Low, outcome: Ok(()) })
            &&& post.delays == pre.delays.push(SETTLE_MS)
        },
        pre.awake() ==> {
            &&& post.line->Some_0.writes == pre.line->Some_0.writes.push(
                LineWrite { level: Level::Low, outcome: Ok(()) },
            )
            &&& post.delays == pre.delays
        },
{
    let (woken, wake, sleep) = choose|
        woken: GateState,
        wake: Result<(), HardwareFault>,
        sleep: Result<(), HardwareFault>,
    |
        #![trigger woke(pre, woken, wake), slept(woken, post, sleep)]
        {
            &&& woke(pre, woken, wake)
            &&& slept(woken, post, sleep)
            &&& match (wake, sleep) {
                (Err(fault), _) => result == Err::<U, HardwareFault>(fault),
                (Ok(()), Err(fault)) => result == Err::<U, HardwareFault>(fault),
                (Ok(()), Ok(())) => result is Ok && call_ensures(function, (), result->Ok_0),
            }
        };
    assert(wake is Ok && sleep is Ok);
    assert(wake == Ok::<(), HardwareFault>(wake->Ok_0));
    assert(sleep == Ok::<(), HardwareFault>(sleep->Ok_0));
}

} // verus!
