//! The serial report: one byte per event, with no framing.

use vstd::prelude::*;
use crate::pair::Direction;

verus! {

/// Sent when A2 fires: ASCII `p`.
pub const A2_FIRED: u8 = 0x70;

/// Sent when the user button fires: ASCII `h`.
pub const USER_FIRED: u8 = 0x68;

/// Sent when the pair picks `Down`: ASCII `d`.
pub const DOWN: u8 = 0x64;

/// Sent when the pair picks `Up`: ASCII `u`.
pub const UP: u8 = 0x75;

/// Whether the byte is one of the four codes.
pub open spec fn is_code(byte: u8) -> bool {
    byte == A2_FIRED || byte == USER_FIRED || byte == DOWN || byte == UP
}

/// The byte that reports a direction.
pub open spec fn direction_code(direction: Direction) -> u8 {
    match direction {
        Direction::Down => DOWN,
        Direction::Up => UP,
    }
}

impl Direction {
    /// The byte that reports this direction.
    pub fn report_byte(self) -> (byte: u8)
        ensures
            byte == direction_code(self),
    {
        match self {
            Direction::Down => DOWN,
            Direction::Up => UP,
        }
    }
}

/// No two events share a code.
pub proof fn lemma_codes_are_distinct()
    ensures
        A2_FIRED != USER_FIRED,
        A2_FIRED != DOWN,
        A2_FIRED != UP,
        USER_FIRED != DOWN,
        USER_FIRED != UP,
        DOWN != UP,
{
}

} // verus!
