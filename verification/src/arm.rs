//! Arm/fire tracking of one monitored input.
//!
//! A monitored input is armed by a cycle in which it is sampled `Low` and
//! fires in a cycle in which it is sampled `High` while armed. The state kept
//! between cycles is therefore a record of the previous sample: `Armed` says
//! that it was `Low`, `Disarmed` that it was `High` or that there was none.

use vstd::prelude::*;
use crate::level::Level;

verus! {

/// What one monitored input carries from one cycle to the next.
#[derive(Clone, Copy, Debug, PartialEq, Eq, Structural)]
pub enum ArmState {
    /// The previous sample was `High`, or no sample has been taken yet.
    Disarmed,
    /// The previous sample was `Low`.
    Armed,
}

impl ArmState {
    /// The state that a cycle with the given sample leaves behind. It does
    /// not depend on the state before: a `Low` sample arms, a `High` sample
    /// disarms, whether or not the input fired.
    pub open spec fn after(sampled: Level) -> ArmState {
        match sampled {
            Level::Low => ArmState::Armed,
            Level::High => ArmState::Disarmed,
        }
    }

    /// Whether the input fires in a cycle that starts in this state and
    /// samples the given level.
    pub open spec fn fires(self, sampled: Level) -> bool {
        self == ArmState::Armed && sampled == Level::High
    }

    /// The state at start-up: nothing can fire in the first cycle.
    pub fn new() -> (state: ArmState)
        ensures
            state == ArmState::Disarmed,
    {
        ArmState::Disarmed
    }

    pub fn is_armed(self) -> (armed: bool)
        ensures
            armed == (self == ArmState::Armed),
    {
        match self {
            ArmState::Armed => true,
            ArmState::Disarmed => false,
        }
    }

    /// One cycle of the input: returns the state for the next cycle and
    /// whether the input fired in this one.
    pub fn step(self, sampled: Level) -> (next: (ArmState, bool))
        ensures
            next.0 == ArmState::after(sampled),
            next.1 == self.fires(sampled),
    {
        let fired = sampled.is_high() && self.is_armed();
        let state = if sampled.is_low() {
            ArmState::Armed
        } else {
            ArmState::Disarmed
        };
        (state, fired)
    }
}

/// An input fires in a cycle exactly when it is sampled `High` there and was
/// sampled `Low` in the cycle before, whatever happened earlier.
pub proof fn lemma_fires_on_rising_samples(earlier: Level, now: Level)
    ensures
        ArmState::after(earlier).fires(now) <==> (earlier == Level::Low && now == Level::High),
{
}

/// Nothing fires in the cycle after a `High` sample: an input that is held
/// `High` fires once, and not again before it has been sampled `Low`.
pub proof fn lemma_high_sample_disarms(now: Level)
    ensures
        !ArmState::after(Level::High).fires(now),
{
}

/// A cycle that samples `Low` never fires, and always arms.
pub proof fn lemma_low_sample_arms(state: ArmState)
    ensures
        !state.fires(Level::Low),
        ArmState::after(Level::Low) == ArmState::Armed,
{
}

/// Before the first sample nothing fires.
pub proof fn lemma_first_cycle_is_silent(sampled: Level)
    ensures
        !ArmState::Disarmed.fires(sampled),
{
}

} // verus!
