//! The mutually exclusive pair of inputs, A1 and A3.
//!
//! Pressing exactly one of the two picks a direction. Pressing both at once
//! is ambiguous and picks none, exactly as pressing neither does.

use vstd::prelude::*;
use crate::level::Level;

verus! {

/// The direction that the pair picks.
#[derive(Clone, Copy, Debug, PartialEq, Eq, Structural)]
pub enum Direction {
    /// A3 alone is `High`: lights red.
    Down,
    /// A1 alone is `High`: lights green.
    Up,
}

/// The direction that the two levels pick, if any.
pub open spec fn chosen(a1: Level, a3: Level) -> Option<Direction> {
    if a3 == Level::High && a1 == Level::Low {
        Some(Direction::Down)
    } else if a1 == Level::High && a3 == Level::Low {
        Some(Direction::Up)
    } else {
        None
    }
}

/// Decides the pair for one cycle.
pub fn select(a1: Level, a3: Level) -> (direction: Option<Direction>)
    ensures
        direction == chosen(a1, a3),
{
    if a3.is_high() ^ a1.is_high() {
        if a3.is_high() {
            Some(Direction::Down)
        } else {
            Some(Direction::Up)
        }
    } else {
        None
    }
}

/// The pair picks no direction exactly when both inputs are at the same
/// level.
pub proof fn lemma_equal_levels_pick_nothing(a1: Level, a3: Level)
    ensures
        chosen(a1, a3).is_none() <==> a1 == a3,
{
}

/// Swapping the two inputs swaps the direction.
pub proof fn lemma_swapped_inputs_swap_direction(a1: Level, a3: Level)
    ensures
        chosen(a1, a3) == Some(Direction::Down) <==> chosen(a3, a1) == Some(Direction::Up),
{
}

} // verus!
