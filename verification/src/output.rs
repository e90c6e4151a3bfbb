//! The LEDs: three digital outputs that remember their last commanded level.

use vstd::prelude::*;
use crate::level::Level;

verus! {

/// One digital output. Its level is the level it was last commanded to.
#[derive(Clone, Copy, Debug, PartialEq, Eq, Structural)]
pub struct DigitalOutput {
    pub level: Level,
}

impl DigitalOutput {
    /// An output at `Low`, as the LEDs are at start-up.
    pub fn new() -> (output: DigitalOutput)
        ensures
            output.level == Level::Low,
    {
        DigitalOutput { level: Level::Low }
    }

    pub fn set_high(&mut self)
        ensures
            final(self).level == Level::High,
    {
        self.level = Level::High;
    }

    pub fn set_low(&mut self)
        ensures
            final(self).level == Level::Low,
    {
        self.level = Level::Low;
    }

    pub fn set_level(&mut self, level: Level)
        ensures
            final(self).level == level,
    {
        self.level = level;
    }

    /// Inverts the last commanded level.
    pub fn toggle(&mut self)
        ensures
            final(self).level == old(self).level.flipped(),
    {
        self.level = self.level.toggled();
    }

    pub fn is_set_high(&self) -> (high: bool)
        ensures
            high == (self.level == Level::High),
    {
        self.level.is_high()
    }

    pub fn is_set_low(&self) -> (low: bool)
        ensures
            low == (self.level == Level::Low),
    {
        self.level.is_low()
    }
}

/// The three LEDs of the board.
///
/// Red and green are directional: every cycle starts by putting both out, and
/// lights at most one of them. Yellow is a latch: it keeps its level until an
/// input fires.
#[derive(Clone, Copy, Debug, PartialEq, Eq, Structural)]
pub struct Leds {
    pub red: DigitalOutput,
    pub green: DigitalOutput,
    pub yellow: DigitalOutput,
}

impl Leds {
    /// Red and green are not both lit.
    pub open spec fn exclusive(self) -> bool {
        !(self.red.level == Level::High && self.green.level == Level::High)
    }

    /// All three LEDs out.
    pub fn new() -> (leds: Leds)
        ensures
            leds.red.level == Level::Low,
            leds.green.level == Level::Low,
            leds.yellow.level == Level::Low,
    {
        Leds { red: DigitalOutput::new(), green: DigitalOutput::new(), yellow: DigitalOutput::new() }
    }

    /// The first step of every cycle: puts red and green out, whatever they
    /// showed before, and leaves yellow as it is.
    pub fn reset_directional(&mut self)
        ensures
            final(self).red.level == Level::Low,
            final(self).green.level == Level::Low,
            final(self).yellow == old(self).yellow,
    {
        self.green.set_low();
        self.red.set_low();
    }
}

} // verus!
