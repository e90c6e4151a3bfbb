//! The event dispatcher: one call of [`tick`] is one cycle of the polling
//! loop.
//!
//! A cycle puts red and green out, lets A2 and the user button fire (each
//! fire toggles yellow and reports a byte), lets the pair A1/A3 light red or
//! green, and records the samples of A2 and the user button for the next
//! cycle. What the caller has to do with the outcome, and in which order, is
//! listed by [`Outcome::actions`]: drive the LEDs, offer each report byte to
//! the serial sink, sleep.

use vstd::prelude::*;
use crate::arm::ArmState;
use crate::level::Level;
use crate::output::Leds;
use crate::output::DigitalOutput;
use crate::pair::Direction;
use crate::pair::chosen;
use crate::pair::select;
use crate::report::A2_FIRED;
use crate::report::USER_FIRED;
use crate::report::direction_code;

verus! {

/// The levels of the four inputs, each sampled once in a cycle.
#[derive(Clone, Copy, Debug, PartialEq, Eq, Structural)]
pub struct Inputs {
    pub a1: Level,
    pub a2: Level,
    pub a3: Level,
    pub user: Level,
}

impl Inputs {
    /// The samples of one cycle, from the four pin reads (`true` for a pin
    /// that reads high).
    pub fn sampled(a1: bool, a2: bool, a3: bool, user: bool) -> (inputs: Inputs)
        ensures
            inputs.a1 == Level::of(a1),
            inputs.a2 == Level::of(a2),
            inputs.a3 == Level::of(a3),
            inputs.user == Level::of(user),
    {
        Inputs {
            a1: Level::from_bool(a1),
            a2: Level::from_bool(a2),
            a3: Level::from_bool(a3),
            user: Level::from_bool(user),
        }
    }
}

/// Everything the dispatcher carries from one cycle to the next.
#[derive(Clone, Copy, Debug, PartialEq, Eq, Structural)]
pub struct DispatcherState {
    /// Arm state of A2.
    pub a2: ArmState,
    /// Arm state of the user button.
    pub user: ArmState,
    /// The levels that the LEDs were last driven to.
    pub leds: Leds,
    /// Whether a serial sink is attached. Without one no byte is reported.
    pub reporting: bool,
    /// The time between two cycles, in milliseconds.
    pub period_ms: u16,
}

/// What one cycle hands back to the caller.
#[derive(Debug, PartialEq, Eq)]
pub struct Outcome {
    /// The state to pass to the next cycle.
    pub state: DispatcherState,
    /// The levels to drive the LEDs to.
    pub outputs: Leds,
    /// The bytes to offer to the serial sink, in order.
    pub report: Vec<u8>,
    /// How long to sleep before the next cycle, in milliseconds.
    pub sleep_ms: u16,
}

/// One thing the caller does for the dispatcher at the end of a cycle.
#[derive(Clone, Copy, Debug, PartialEq, Eq, Structural)]
pub enum Action {
    /// Drive the three LEDs to these levels.
    Drive(Leds),
    /// Offer this byte to the serial sink, once. A byte that the sink does
    /// not take is dropped.
    Send(u8),
    /// Sleep for this many milliseconds.
    Sleep(u16),
}

impl Outcome {
    /// The actions of the cycle in the order in which they are due: the LEDs
    /// first, then the report bytes in order, the sleep last.
    pub open spec fn schedule(self) -> Seq<Action> {
        seq![Action::Drive(self.outputs)] + self.report@.map_values(|byte: u8| Action::Send(byte))
            + seq![Action::Sleep(self.sleep_ms)]
    }

    /// Lists what the caller has to do, in order.
    pub fn actions(&self) -> (actions: Vec<Action>)
        ensures
            actions@ == self.schedule(),
    {
        let ghost send = |byte: u8| Action::Send(byte);
        let mut actions: Vec<Action> = Vec::new();
        actions.push(Action::Drive(self.outputs));
        let mut sent: usize = 0;
        while sent < self.report.len()
            invariant
                sent <= self.report.len(),
                send == |byte: u8| Action::Send(byte),
                actions@ == seq![Action::Drive(self.outputs)] + self.report@.take(
                    sent as int,
                ).map_values(send),
            decreases self.report.len() - sent,
        {
            actions.push(Action::Send(self.report[sent]));
            assert(self.report@.take(sent + 1).map_values(send) == self.report@.take(
                sent as int,
            ).map_values(send).push(send(self.report@[sent as int])));
            sent += 1;
        }
        assert(self.report@.take(sent as int) == self.report@);
        actions.push(Action::Sleep(self.sleep_ms));
        actions
    }
}

impl DispatcherState {
    /// Whether A2 fires in a cycle that starts in this state.
    pub open spec fn a2_fires(self, inputs: Inputs) -> bool {
        self.a2.fires(inputs.a2)
    }

    /// Whether the user button fires in a cycle that starts in this state.
    pub open spec fn user_fires(self, inputs: Inputs) -> bool {
        self.user.fires(inputs.user)
    }

    /// Yellow after the cycle. Each fire toggles it once, so two fires in
    /// one cycle leave it where it was.
    pub open spec fn yellow_after(self, inputs: Inputs) -> Level {
        if self.a2_fires(inputs) != self.user_fires(inputs) {
            self.leds.yellow.level.flipped()
        } else {
            self.leds.yellow.level
        }
    }

    /// The LEDs after the cycle. Red and green depend on this cycle's
    /// samples of A1 and A3 alone.
    pub open spec fn leds_after(self, inputs: Inputs) -> Leds {
        Leds {
            red: DigitalOutput {
                level: Level::of(chosen(inputs.a1, inputs.a3) == Some(Direction::Down)),
            },
            green: DigitalOutput {
                level: Level::of(chosen(inputs.a1, inputs.a3) == Some(Direction::Up)),
            },
            yellow: DigitalOutput { level: self.yellow_after(inputs) },
        }
    }

    /// The state after the cycle.
    pub open spec fn after(self, inputs: Inputs) -> DispatcherState {
        DispatcherState {
            a2: ArmState::after(inputs.a2),
            user: ArmState::after(inputs.user),
            leds: self.leds_after(inputs),
            reporting: self.reporting,
            period_ms: self.period_ms,
        }
    }

    /// The codes of the events of the cycle, in the order in which they are
    /// reported: A2, the user button, the pair.
    pub open spec fn events(self, inputs: Inputs) -> Seq<u8> {
        let a2 = if self.a2_fires(inputs) {
            seq![A2_FIRED]
        } else {
            Seq::<u8>::empty()
        };
        let user = if self.user_fires(inputs) {
            seq![USER_FIRED]
        } else {
            Seq::<u8>::empty()
        };
        let pair = match chosen(inputs.a1, inputs.a3) {
            Some(direction) => seq![direction_code(direction)],
            None => Seq::<u8>::empty(),
        };
        a2 + user + pair
    }

    /// The bytes reported in the cycle: its events where a sink is attached,
    /// nothing where none is.
    pub open spec fn report(self, inputs: Inputs) -> Seq<u8> {
        if self.reporting {
            self.events(inputs)
        } else {
            Seq::<u8>::empty()
        }
    }

    /// The state after the cycles that take the given samples in turn.
    pub open spec fn after_all(self, samples: Seq<Inputs>) -> DispatcherState
        decreases samples.len(),
    {
        if samples.len() == 0 {
            self
        } else {
            self.after_all(samples.drop_last()).after(samples.last())
        }
    }

    /// The state at start-up: nothing armed, all LEDs out.
    pub fn new(reporting: bool, period_ms: u16) -> (state: DispatcherState)
        ensures
            state.a2 == ArmState::Disarmed,
            state.user == ArmState::Disarmed,
            state.leds.red.level == Level::Low,
            state.leds.green.level == Level::Low,
            state.leds.yellow.level == Level::Low,
            state.reporting == reporting,
            state.period_ms == period_ms,
    {
        DispatcherState {
            a2: ArmState::new(),
            user: ArmState::new(),
            leds: Leds::new(),
            reporting,
            period_ms,
        }
    }
}

/// Runs one cycle on the samples in `inputs`.
pub fn tick(state: DispatcherState, inputs: Inputs) -> (outcome: Outcome)
    ensures
        outcome.state == state.after(inputs),
        outcome.outputs == state.leds_after(inputs),
        outcome.report@ == state.report(inputs),
        outcome.sleep_ms == state.period_ms,
        outcome.outputs.exclusive(),
{
    let mut leds = state.leds;
    let mut events: Vec<u8> = Vec::new();

    leds.reset_directional();

    let (a2, a2_fired) = state.a2.step(inputs.a2);
    if a2_fired {
        leds.yellow.toggle();
        events.push(A2_FIRED);
    }
    let (user, user_fired) = state.user.step(inputs.user);
    if user_fired {
        leds.yellow.toggle();
        events.push(USER_FIRED);
    }
    match select(inputs.a1, inputs.a3) {
        Some(direction) => {
            match direction {
                Direction::Down => leds.red.set_high(),
                Direction::Up => leds.green.set_high(),
            }
            events.push(direction.report_byte());
        },
        None => {},
    }
    assert(events@ =~= state.events(inputs));

    let report = if state.reporting {
        events
    } else {
        Vec::new()
    };
    Outcome {
        state: DispatcherState {
            a2,
            user,
            leds,
            reporting: state.reporting,
            period_ms: state.period_ms,
        },
        outputs: leds,
        report,
        sleep_ms: state.period_ms,
    }
}

} // verus!
