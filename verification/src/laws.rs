//! What holds of every cycle, proved from the definitions in
//! [`crate::dispatch`].

use vstd::prelude::*;
use crate::arm::ArmState;
use crate::dispatch::Action;
use crate::dispatch::DispatcherState;
use crate::dispatch::Inputs;
use crate::dispatch::Outcome;
use crate::level::Level;
use crate::pair::Direction;
use crate::pair::chosen;
use crate::report::A2_FIRED;
use crate::report::USER_FIRED;
use crate::report::DOWN;
use crate::report::UP;
use crate::report::is_code;

verus! {

/// Red and green keep nothing from the cycle before: two states that differ
/// only in the levels of red and green give the same cycle.
pub proof fn lemma_cycle_forgets_red_and_green(
    state: DispatcherState,
    other: DispatcherState,
    inputs: Inputs,
)
    requires
        state.a2 == other.a2,
        state.user == other.user,
        state.leds.yellow == other.leds.yellow,
        state.reporting == other.reporting,
        state.period_ms == other.period_ms,
    ensures
        state.after(inputs) == other.after(inputs),
        state.report(inputs) == other.report(inputs),
{
}

/// Red and green are never both lit after a cycle, whatever the state before
/// and whatever the samples.
pub proof fn lemma_red_and_green_exclusive(state: DispatcherState, inputs: Inputs)
    ensures
        state.after(inputs).leds.exclusive(),
{
}

/// Red and green are not both lit after any number of cycles from a state in
/// which they are not.
pub proof fn lemma_exclusive_in_every_cycle(state: DispatcherState, samples: Seq<Inputs>)
    requires
        state.leds.exclusive(),
    ensures
        state.after_all(samples).leds.exclusive(),
    decreases samples.len(),
{
    if samples.len() > 0 {
        lemma_red_and_green_exclusive(state.after_all(samples.drop_last()), samples.last());
    }
}

/// Where A1 and A3 are at the same level, both `High` or both `Low`, the
/// cycle lights neither red nor green and reports no direction.
pub proof fn lemma_equal_pair_is_vetoed(state: DispatcherState, inputs: Inputs)
    requires
        inputs.a1 == inputs.a3,
    ensures
        state.after(inputs).leds.red.level == Level::Low,
        state.after(inputs).leds.green.level == Level::Low,
        !state.report(inputs).contains(DOWN),
        !state.report(inputs).contains(UP),
{
}

/// Where exactly one of A1 and A3 is `High`, the cycle lights the LED of
/// that input alone and, with a sink attached, ends its report with the code
/// of the direction.
pub proof fn lemma_single_press_lights_its_led(state: DispatcherState, inputs: Inputs)
    requires
        inputs.a1 != inputs.a3,
    ensures
        (state.after(inputs).leds.red.level == Level::High) == (inputs.a3 == Level::High),
        (state.after(inputs).leds.green.level == Level::High) == (inputs.a1 == Level::High),
        state.reporting ==> state.report(inputs).len() > 0 && state.report(inputs).last() == (
        if inputs.a3 == Level::High {
            DOWN
        } else {
            UP
        }),
{
}

/// Yellow is a latch: a cycle in which neither A2 nor the user button fires
/// leaves it at the level it had.
pub proof fn lemma_yellow_is_latched(state: DispatcherState, inputs: Inputs)
    requires
        !state.a2_fires(inputs),
        !state.user_fires(inputs),
    ensures
        state.after(inputs).leds.yellow == state.leds.yellow,
{
}

/// A cycle in which exactly one of A2 and the user button fires inverts
/// yellow; one in which both fire toggles it twice and so leaves it alone.
pub proof fn lemma_yellow_follows_fires(state: DispatcherState, inputs: Inputs)
    ensures
        state.a2_fires(inputs) != state.user_fires(inputs)
            ==> state.after(inputs).leds.yellow.level == state.leds.yellow.level.flipped(),
        state.a2_fires(inputs) && state.user_fires(inputs)
            ==> state.after(inputs).leds.yellow == state.leds.yellow,
{
}

/// In the cycle after any cycle, A2 fires exactly when it is sampled `High`
/// and was sampled `Low` in the cycle before; so does the user button.
pub proof fn lemma_fire_follows_low_sample(state: DispatcherState, first: Inputs, second: Inputs)
    ensures
        state.after(first).a2_fires(second) <==> (first.a2 == Level::Low && second.a2
            == Level::High),
        state.after(first).user_fires(second) <==> (first.user == Level::Low && second.user
            == Level::High),
{
}

/// In a run of cycles, A2 fires in a cycle after the first exactly when its
/// sample there is `High` and its sample in the cycle before is `Low`; so
/// does the user button. An input held `High` therefore fires once.
pub proof fn lemma_fires_on_rising_samples_in_run(
    state: DispatcherState,
    samples: Seq<Inputs>,
    cycle: int,
)
    requires
        1 <= cycle < samples.len(),
    ensures
        state.after_all(samples.take(cycle)).a2_fires(samples[cycle]) <==> (samples[cycle - 1].a2
            == Level::Low && samples[cycle].a2 == Level::High),
        state.after_all(samples.take(cycle)).user_fires(samples[cycle]) <==> (samples[cycle
            - 1].user == Level::Low && samples[cycle].user == Level::High),
{
    let before = samples.take(cycle);
    assert(before.last() == samples[cycle - 1]);
    lemma_fire_follows_low_sample(
        state.after_all(before.drop_last()),
        samples[cycle - 1],
        samples[cycle],
    );
}

/// In the first cycle after start-up nothing fires, so yellow stays out.
pub proof fn lemma_nothing_fires_at_start_up(state: DispatcherState, inputs: Inputs)
    requires
        state.a2 == ArmState::Disarmed,
        state.user == ArmState::Disarmed,
    ensures
        !state.a2_fires(inputs),
        !state.user_fires(inputs),
        state.after(inputs).leds.yellow == state.leds.yellow,
{
}

/// A report holds at most three bytes, each one of the four codes, and no
/// code twice.
pub proof fn lemma_report_alphabet(state: DispatcherState, inputs: Inputs)
    ensures
        state.report(inputs).len() <= 3,
        forall|i: int|
            0 <= i < state.report(inputs).len() ==> is_code(#[trigger] state.report(inputs)[i]),
        state.report(inputs).no_duplicates(),
{
}

/// A byte is reported exactly when a sink is attached and its event took
/// place in the cycle.
pub proof fn lemma_report_tells_events(state: DispatcherState, inputs: Inputs)
    ensures
        state.report(inputs).contains(A2_FIRED) <==> state.reporting && state.a2_fires(inputs),
        state.report(inputs).contains(USER_FIRED) <==> state.reporting && state.user_fires(inputs),
        state.report(inputs).contains(DOWN) <==> state.reporting && chosen(inputs.a1, inputs.a3)
            == Some(Direction::Down),
        state.report(inputs).contains(UP) <==> state.reporting && chosen(inputs.a1, inputs.a3)
            == Some(Direction::Up),
{
    let report = state.report(inputs);
    if state.reporting {
        let user_at: int = if state.a2_fires(inputs) {
            1
        } else {
            0
        };
        let pair_at: int = if state.user_fires(inputs) {
            user_at + 1
        } else {
            user_at
        };
        if state.a2_fires(inputs) {
            assert(report[0] == A2_FIRED);
        }
        if state.user_fires(inputs) {
            assert(report[user_at] == USER_FIRED);
        }
        if chosen(inputs.a1, inputs.a3) == Some(Direction::Down) {
            assert(report[pair_at] == DOWN);
        }
        if chosen(inputs.a1, inputs.a3) == Some(Direction::Up) {
            assert(report[pair_at] == UP);
        }
    }
}

/// The LEDs are driven before any byte is sent, the bytes are sent in the
/// order of the report, and the sleep comes last.
pub proof fn lemma_schedule_order(outcome: Outcome)
    ensures
        outcome.schedule().len() == outcome.report@.len() + 2,
        outcome.schedule().first() == Action::Drive(outcome.outputs),
        outcome.schedule().last() == Action::Sleep(outcome.sleep_ms),
        forall|i: int|
            0 <= i < outcome.report@.len() ==> #[trigger] outcome.schedule()[i + 1] == Action::Send(
                outcome.report@[i],
            ),
{
}

} // verus!
