use vstd::prelude::*;

use crate::text::{hexadecimal, push_char, push_hexadecimal};
use crate::ui_controller::{string_event, ui_event_view, UiEvent};

verus! {

/// The color of the brightness setting, as `0xRRGGBB`, chosen by events from the front
/// end.
#[derive(Copy, Clone, Debug, PartialEq, Eq, Structural)]
pub struct BrightnessColor {
    pub event: Option<i32>,
    pub value: i32,
}

/// The spelling of a color: `#` and its upper-case hexadecimal digits, a negative value
/// taken as its two's complement.
pub open spec fn color_label(value: i32) -> Seq<char> {
    seq!['#'] + hexadecimal((value as u32) as nat)
}

impl BrightnessColor {
    pub fn from(value: i32) -> (r: BrightnessColor)
        ensures
            r == (BrightnessColor { event: None, value }),
    {
        BrightnessColor { event: None, value }
    }

    pub fn event_tag(&self) -> (r: &'static str)
        ensures
            r@ == "front2back:brightness-color"@,
    {
        "front2back:brightness-color"
    }

    /// The color has no hotkeys.
    pub fn keys_inc(&self) -> (r: Vec<&'static str>)
        ensures
            r@.len() == 0,
    {
        Vec::new()
    }

    /// The color has no hotkeys.
    pub fn keys_dec(&self) -> (r: Vec<&'static str>)
        ensures
            r@.len() == 0,
    {
        Vec::new()
    }

    /// The color changes only through events: a frame changes nothing.
    pub fn update(&mut self) -> (r: (bool, Vec<UiEvent>))
        ensures
            *final(self) == *old(self),
            !r.0,
            r.1@.len() == 0,
    {
        (false, Vec::new())
    }

    pub fn reset_inputs(&mut self)
        ensures
            *final(self) == (BrightnessColor { event: None, ..*old(self) }),
    {
        self.event = None;
    }

    pub fn read_event(&mut self, value: i32)
        ensures
            *final(self) == (BrightnessColor { event: Some(value), ..*old(self) }),
    {
        self.event = Some(value);
    }

    /// The message that reports the color to the front end, such as `#FFFFFF`.
    pub fn dispatch_event(&self) -> (r: UiEvent)
        ensures
            ui_event_view(r) == string_event("back2front:change_brightness_color"@, color_label(self.value)),
    {
        let mut s = String::new();
        push_char(&mut s, '#');
        push_hexadecimal(&mut s, (self.value as u32) as u64);
        proof {
            assert(s@ =~= color_label(self.value));
        }
        UiEvent::StringEvent("back2front:change_brightness_color".to_owned(), s)
    }

    pub fn post_process_input(&mut self)
        ensures
            *final(self) == (BrightnessColor { event: None, ..*old(self) }),
    {
        self.event = None;
    }
}

} // verus!
