use vstd::prelude::*;

verus! {

/// A button sampled once per simulation tick: `input` is its raw state, and tracking it
/// turns changes of that state into one-tick edges.
#[derive(Copy, Clone, Debug, PartialEq, Eq, Structural)]
pub struct BooleanButton {
    pub input: bool,
    pub activated: bool,
    pub just_pressed: bool,
    pub just_released: bool,
}

impl BooleanButton {
    /// The state seen at the last tracking.
    pub open spec fn activated_spec(self) -> bool {
        self.activated
    }

    pub open spec fn just_pressed_spec(self) -> bool {
        self.just_pressed
    }

    pub open spec fn just_released_spec(self) -> bool {
        self.just_released
    }

    /// A button that is up and has never been pressed.
    pub open spec fn released() -> Self {
        BooleanButton { input: false, activated: false, just_pressed: false, just_released: false }
    }

    pub fn new() -> (r: Self)
        ensures
            r == Self::released(),
    {
        BooleanButton { input: false, activated: false, just_pressed: false, just_released: false }
    }

    /// Samples `input`: a press or a release since the last sample becomes an edge that
    /// lasts until the next sample.
    pub fn track_input(&mut self)
        ensures
            final(self).input == old(self).input,
            final(self).activated == old(self).input,
            final(self).just_pressed == (old(self).input && !old(self).activated),
            final(self).just_released == (!old(self).input && old(self).activated),
    {
        self.just_pressed = self.input && !self.activated;
        self.just_released = !self.input && self.activated;
        self.activated = self.input;
    }

    pub fn is_just_pressed(&self) -> (r: bool)
        ensures
            r == self.just_pressed,
    {
        self.just_pressed
    }

    pub fn is_just_released(&self) -> (r: bool)
        ensures
            r == self.just_released,
    {
        self.just_released
    }

    pub fn is_activated(&self) -> (r: bool)
        ensures
            r == self.activated,
    {
        self.activated
    }
}

impl Default for BooleanButton {
    fn default() -> (r: Self)
        ensures
            r == Self::released(),
    {
        BooleanButton::new()
    }
}

} // verus!
