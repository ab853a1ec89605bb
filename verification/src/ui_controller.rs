use vstd::prelude::*;

pub mod brightness_color;
pub mod enum_ui;
pub mod filter_preset;
pub mod internal_resolution;
pub mod pixel_geometry_kind;
pub mod screen_curvature_kind;
pub mod texture_interpolation;
pub mod vertical_lpp;

verus! {

/// A message that a settings controller sends to the front end.
#[derive(Clone, Debug, PartialEq)]
pub enum UiEvent {
    /// A tagged event with its text.
    StringEvent(String, String),
    /// A message for the top of the screen.
    TopMessage(String),
    /// The setting hit its lowest value, spelled out.
    MinimumValue(String),
    /// The setting hit its highest value, spelled out.
    MaximumValue(String),
}

/// The view of a message: its kind and its texts.
pub open spec fn ui_event_view(e: UiEvent) -> (nat, Seq<char>, Seq<char>) {
    match e {
        UiEvent::StringEvent(tag, message) => (0, tag@, message@),
        UiEvent::TopMessage(m) => (1, Seq::empty(), m@),
        UiEvent::MinimumValue(v) => (2, Seq::empty(), v@),
        UiEvent::MaximumValue(v) => (3, Seq::empty(), v@),
    }
}

/// The views of a list of messages.
pub open spec fn ui_events_view(v: Seq<UiEvent>) -> Seq<(nat, Seq<char>, Seq<char>)> {
    v.map_values(|e: UiEvent| ui_event_view(e))
}

/// A tagged event, viewed.
pub open spec fn string_event(tag: Seq<char>, message: Seq<char>) -> (nat, Seq<char>, Seq<char>) {
    (0, tag, message)
}

/// A top-of-screen message, viewed.
pub open spec fn top_message(message: Seq<char>) -> (nat, Seq<char>, Seq<char>) {
    (1, Seq::empty(), message)
}

/// A message that the lowest value was hit, viewed.
pub open spec fn minimum_value(value: Seq<char>) -> (nat, Seq<char>, Seq<char>) {
    (2, Seq::empty(), value)
}

/// A message that the highest value was hit, viewed.
pub open spec fn maximum_value(value: Seq<char>) -> (nat, Seq<char>, Seq<char>) {
    (3, Seq::empty(), value)
}

} // verus!
