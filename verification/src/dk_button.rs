//! Edge detection for a push button that is sampled at intervals.

use vstd::prelude::*;

verus! {

/// A push button, known by the last sample taken of it.
pub struct Button {
    was_pressed: bool,
}

impl Button {
    /// Whether the button was pressed at the last sample.
    pub closed spec fn was_pressed(&self) -> bool {
        self.was_pressed
    }

    /// A button that has not been seen pressed yet.
    pub fn new() -> (r: Self)
        ensures
            !r.was_pressed(),
    {
        Button { was_pressed: false }
    }

    /// Takes a sample of the button and tells whether it was let go since the
    /// last one: pressed then, not pressed now.
    pub fn check_rising_edge(&mut self, is_pressed: bool) -> (r: bool)
        ensures
            r == (old(self).was_pressed() && !is_pressed),
            final(self).was_pressed() == is_pressed,
    {
        let mut rising_edge = false;
        if self.was_pressed && !is_pressed {
            rising_edge = true;
        }
        self.was_pressed = is_pressed;
        rising_edge
    }
}

} // verus!
