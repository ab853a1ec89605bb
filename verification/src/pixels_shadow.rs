use vstd::prelude::*;

use crate::general_types::OptionCursor;
use crate::text::{decimal, push_decimal};

verus! {

/// The side of the square texture into which a pixel's shadow is drawn.
pub const TEXTURE_SIZE: usize = 510;

/// The number of shadow shapes.
pub const SHADOWS_LEN: usize = 24;

/// The shape of the shadow inside each pixel, numbered from 0 to 23.
#[derive(Copy, Clone, Debug, PartialEq, Eq, Structural)]
pub struct ShadowShape {
    pub value: usize,
}

impl ShadowShape {
    /// The number of the shape, spelled out.
    pub fn to_string(&self) -> (r: String)
        ensures
            r@ == decimal(self.value as nat),
    {
        let mut s = String::new();
        push_decimal(&mut s, self.value as u64);
        s
    }
}

impl Default for ShadowShape {
    fn default() -> (r: ShadowShape)
        ensures
            r.value == 0,
    {
        ShadowShape { value: 0 }
    }
}

impl OptionCursor for ShadowShape {
    /// The next shape, the last one wrapping to the first (a number past the list also
    /// goes to the first).
    open spec fn next_spec(self) -> Self {
        ShadowShape { value: if self.value + 1 >= SHADOWS_LEN { 0 } else { (self.value + 1) as usize } }
    }

    /// The previous shape, the first one wrapping to the last.
    open spec fn previous_spec(self) -> Self {
        ShadowShape { value: if self.value == 0 { (SHADOWS_LEN - 1) as usize } else { (self.value - 1) as usize } }
    }

    open spec fn can_step(self) -> bool {
        self.value < usize::MAX
    }

    open spec fn maximum_reached_spec(self) -> bool {
        false
    }

    open spec fn minimum_reached_spec(self) -> bool {
        false
    }

    fn next_option(&mut self) {
        self.value = self.value + 1;
        if self.value >= SHADOWS_LEN {
            self.value = 0;
        }
    }

    fn previous_option(&mut self) {
        if self.value == 0 {
            self.value = SHADOWS_LEN;
        }
        self.value = self.value - 1;
    }

    fn has_reached_maximum_limit(&self) -> (r: bool) {
        false
    }

    fn has_reached_minimum_limit(&self) -> (r: bool) {
        false
    }
}

/// Within the list of shapes, one step forward and one back (in either order) give the
/// shape one started from.
pub proof fn lemma_shadow_steps_undo(s: ShadowShape)
    requires
        s.value < SHADOWS_LEN,
    ensures
        s.next_spec().previous_spec() == s,
        s.previous_spec().next_spec() == s,
        s.next_spec().value < SHADOWS_LEN,
        s.previous_spec().value < SHADOWS_LEN,
{
}

} // verus!
