//! The logic level of a digital line.

use vstd::prelude::*;

verus! {

/// The level of a digital input or output at one instant.
#[derive(Clone, Copy, Debug, PartialEq, Eq, Structural)]
pub enum Level {
    Low,
    High,
}

impl Level {
    /// The other level.
    pub open spec fn flipped(self) -> Level {
        match self {
            Level::Low => Level::High,
            Level::High => Level::Low,
        }
    }

    /// The level that a pin read reports: `true` stands for `High`.
    pub open spec fn of(high: bool) -> Level {
        if high {
            Level::High
        } else {
            Level::Low
        }
    }

    /// Turns the result of a pin read into a level.
    pub fn from_bool(high: bool) -> (level: Level)
        ensures
            level == Level::of(high),
    {
        if high {
            Level::High
        } else {
            Level::Low
        }
    }

    pub fn is_high(self) -> (high: bool)
        ensures
            high == (self == Level::High),
    {
        match self {
            Level::High => true,
            Level::Low => false,
        }
    }

    pub fn is_low(self) -> (low: bool)
        ensures
            low == (self == Level::Low),
    {
        match self {
            Level::Low => true,
            Level::High => false,
        }
    }

    /// The level a toggle leaves behind.
    pub fn toggled(self) -> (level: Level)
        ensures
            level == self.flipped(),
    {
        match self {
            Level::Low => Level::High,
            Level::High => Level::Low,
        }
    }
}

/// Flipping twice gives the starting level back.
pub proof fn lemma_flipped_twice(level: Level)
    ensures
        level.flipped().flipped() == level,
{
}

} // verus!
