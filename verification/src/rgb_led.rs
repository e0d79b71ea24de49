//! The three-colour indicator, as the levels of its channels.
//!
//! The channels are wired active-low: a channel is lit while its level is low.

use crate::alert::AlertLevel;
use vstd::prelude::*;

verus! {

/// The levels of the red, blue and green channel; `true` is high, which is dark.
#[derive(Clone, Copy, Debug, PartialEq, Eq, Structural)]
pub struct LEDColour {
    pub r: bool,
    pub b: bool,
    pub g: bool,
}

impl LEDColour {
    /// The levels that light the given channels and no others.
    pub open spec fn lit(red: bool, green: bool, blue: bool) -> LEDColour {
        LEDColour { r: !red, b: !blue, g: !green }
    }

    /// The colour that stands for an alert level.
    pub open spec fn for_level(level: AlertLevel) -> LEDColour {
        match level {
            AlertLevel::Green => Self::lit(false, true, false),
            AlertLevel::Blue => Self::lit(false, false, true),
            AlertLevel::Yellow => Self::lit(true, true, false),
            AlertLevel::RedAlerting => Self::lit(true, false, false),
        }
    }

    /// An indicator with all channels dark.
    pub fn init() -> (r: LEDColour)
        ensures
            r == Self::lit(false, false, false),
    {
        LEDColour { r: true, b: true, g: true }
    }

    /// Turns all channels dark.
    pub fn off(&mut self)
        ensures
            *final(self) == Self::lit(false, false, false),
    {
        self.r = true;
        self.b = true;
        self.g = true;
    }

    /// Shows red.
    pub fn red(&mut self)
        ensures
            *final(self) == Self::lit(true, false, false),
    {
        self.r = false;
        self.g = true;
        self.b = true;
    }

    /// Shows blue.
    pub fn blue(&mut self)
        ensures
            *final(self) == Self::lit(false, false, true),
    {
        self.r = true;
        self.g = true;
        self.b = false;
    }

    /// Shows green.
    pub fn green(&mut self)
        ensures
            *final(self) == Self::lit(false, true, false),
    {
        self.r = true;
        self.g = false;
        self.b = true;
    }

    /// Shows yellow: red and green together.
    pub fn yellow(&mut self)
        ensures
            *final(self) == Self::lit(true, true, false),
    {
        self.r = false;
        self.b = true;
        self.g = false;
    }

    /// Shows white: all channels lit.
    pub fn white(&mut self)
        ensures
            *final(self) == Self::lit(true, true, true),
    {
        self.r = false;
        self.g = false;
        self.b = false;
    }

    /// Gives the levels of a blink, which flashes white and then shows again
    /// what was shown before: the result is the flash, and the indicator keeps
    /// its colour.
    pub fn blink(&mut self) -> (flash: LEDColour)
        ensures
            flash == Self::lit(true, true, true),
            *final(self) == *old(self),
    {
        let current = *self;
        self.white();
        let flash = *self;
        *self = current;
        flash
    }

    /// Shows the colour of an alert level: green, blue, yellow or red.
    pub fn show(&mut self, level: AlertLevel)
        ensures
            *final(self) == Self::for_level(level),
    {
        match level {
            AlertLevel::Green => self.green(),
            AlertLevel::Blue => self.blue(),
            AlertLevel::Yellow => self.yellow(),
            AlertLevel::RedAlerting => self.red(),
        }
    }
}

/// Each alert level has a colour of its own, and none of them is dark.
pub proof fn level_colours_are_distinct(a: AlertLevel, b: AlertLevel)
    requires
        a != b,
    ensures
        LEDColour::for_level(a) != LEDColour::for_level(b),
        LEDColour::for_level(a) != LEDColour::lit(false, false, false),
{
}

} // verus!
