use vstd::prelude::*;

use crate::boolean_button::BooleanButton;
use crate::field_changer::{options_can_step, option_after, options_change, FieldChange, FieldChanger};
use crate::general_types::{IncDec, OptionCursor};
use crate::ui_controller::{maximum_value, minimum_value, string_event, ui_events_view, UiEvent};

verus! {

/// An option list shown in the settings: its tags, its hotkeys and its label.
pub trait EnumUi: Sized {
    /// The label of the option.
    spec fn label(self) -> Seq<char>;

    /// The tag of the event that reports the option to the front end.
    spec fn dispatch_tag_spec(self) -> Seq<char>;

    /// The tag of the event that sets the option from the front end.
    spec fn event_tag_spec(self) -> Seq<char>;

    /// The hotkeys that step the option forward.
    spec fn keys_inc_spec(self) -> Seq<Seq<char>>;

    /// The hotkeys that step the option back.
    spec fn keys_dec_spec(self) -> Seq<Seq<char>>;

    fn event_tag(&self) -> (r: &'static str)
        ensures
            r@ == self.event_tag_spec(),
    ;

    fn keys_inc(&self) -> (r: Vec<&'static str>)
        ensures
            key_texts(r@) == self.keys_inc_spec(),
    ;

    fn keys_dec(&self) -> (r: Vec<&'static str>)
        ensures
            key_texts(r@) == self.keys_dec_spec(),
    ;

    fn dispatch_tag(&self) -> (r: &'static str)
        ensures
            r@ == self.dispatch_tag_spec(),
    ;

    fn to_string(&self) -> (r: String)
        ensures
            r@ == self.label(),
    ;
}

/// The texts of a list of hotkeys.
pub open spec fn key_texts(keys: Seq<&'static str>) -> Seq<Seq<char>> {
    keys.map_values(|k: &'static str| k@)
}

/// A setting chosen from a list of options, stepped by its increase and decrease keys.
#[derive(Clone, Debug)]
pub struct EnumHolder<T: Copy> {
    pub input: IncDec<BooleanButton>,
    pub event: Option<T>,
    pub value: T,
}

/// The change that the keys pressed this frame ask of an option setting.
pub open spec fn holder_changer<T: Copy>(input: IncDec<BooleanButton>) -> FieldChanger<T> {
    FieldChanger {
        incdec: IncDec {
            increase: input.increase.just_pressed_spec(),
            decrease: input.decrease.just_pressed_spec(),
        },
        trigger_handler: true,
        event_value: None,
        velocity: None,
        min: None,
        max: None,
    }
}

/// The messages that a change of an option sends: the limit it hit, or the option itself.
pub open spec fn option_events<T: EnumUi + OptionCursor>(n: T, change: FieldChange) -> Seq<
    (nat, Seq<char>, Seq<char>),
> {
    if change.minimum_notice {
        seq![minimum_value(n.label())]
    } else if change.maximum_notice {
        seq![maximum_value(n.label())]
    } else if change.triggered {
        seq![string_event(n.dispatch_tag_spec(), n.label())]
    } else {
        seq![]
    }
}

impl<T: Copy + EnumUi + OptionCursor> EnumHolder<T> {
    pub fn from(value: T) -> (r: EnumHolder<T>)
        ensures
            r.value == value,
            r.event is None,
            r.input == (IncDec { increase: BooleanButton::released(), decrease: BooleanButton::released() }),
    {
        EnumHolder {
            input: IncDec { increase: BooleanButton::new(), decrease: BooleanButton::new() },
            event: None,
            value,
        }
    }

    pub fn event_tag(&self) -> (r: &'static str)
        ensures
            r@ == self.value.event_tag_spec(),
    {
        self.value.event_tag()
    }

    pub fn keys_inc(&self) -> (r: Vec<&'static str>)
        ensures
            key_texts(r@) == self.value.keys_inc_spec(),
    {
        self.value.keys_inc()
    }

    pub fn keys_dec(&self) -> (r: Vec<&'static str>)
        ensures
            key_texts(r@) == self.value.keys_dec_spec(),
    {
        self.value.keys_dec()
    }

    /// Steps the option for the keys pressed this frame; returns whether it changed, with
    /// the messages for the front end.
    pub fn update(&mut self) -> (r: (bool, Vec<UiEvent>))
        requires
            options_can_step(old(self).value, holder_changer::<T>(old(self).input)),
        ensures
            final(self).value == option_after(old(self).value, holder_changer::<T>(old(self).input)),
            r.0 == options_change(final(self).value, holder_changer::<T>(old(self).input)).triggered,
            ui_events_view(r.1@) == option_events(
                final(self).value,
                options_change(final(self).value, holder_changer::<T>(old(self).input)),
            ),
            final(self).input == old(self).input,
            final(self).event == old(self).event,
    {
        let inputs = self.input.to_just_pressed();
        let changer: FieldChanger<T> = FieldChanger::new(inputs).set_trigger_handler();
        let change = changer.process_options(&mut self.value);
        let mut events: Vec<UiEvent> = Vec::new();
        if change.minimum_notice {
            events.push(UiEvent::MinimumValue(self.value.to_string()));
        } else if change.maximum_notice {
            events.push(UiEvent::MaximumValue(self.value.to_string()));
        } else if change.triggered {
            events.push(UiEvent::StringEvent(self.value.dispatch_tag().to_owned(), self.value.to_string()));
        }
        proof {
            assert(ui_events_view(events@) =~= option_events(self.value, change));
        }
        (change.triggered, events)
    }

    pub fn reset_inputs(&mut self)
        ensures
            final(self).value == old(self).value,
            final(self).event is None,
            final(self).input == (IncDec { increase: BooleanButton::released(), decrease: BooleanButton::released() }),
    {
        self.input = IncDec { increase: BooleanButton::new(), decrease: BooleanButton::new() };
        self.event = None;
    }

    pub fn read_event(&mut self, value: T)
        ensures
            *final(self) == (EnumHolder { event: Some(value), ..*old(self) }),
    {
        self.event = Some(value);
    }

    pub fn read_key_inc(&mut self, pressed: bool)
        ensures
            final(self).input.increase == (BooleanButton { input: pressed, ..old(self).input.increase }),
            final(self).input.decrease == old(self).input.decrease,
            final(self).value == old(self).value,
            final(self).event == old(self).event,
    {
        self.input.increase.input = pressed;
    }

    pub fn read_key_dec(&mut self, pressed: bool)
        ensures
            final(self).input.decrease == (BooleanButton { input: pressed, ..old(self).input.decrease }),
            final(self).input.increase == old(self).input.increase,
            final(self).value == old(self).value,
            final(self).event == old(self).event,
    {
        self.input.decrease.input = pressed;
    }

    /// The message that reports the option to the front end.
    pub fn dispatch_event(&self) -> (r: UiEvent)
        ensures
            crate::ui_controller::ui_event_view(r) == string_event(self.value.dispatch_tag_spec(), self.value.label()),
    {
        UiEvent::StringEvent(self.value.dispatch_tag().to_owned(), self.value.to_string())
    }

    pub fn pre_process_input(&mut self)
        ensures
            final(self).value == old(self).value,
            final(self).event == old(self).event,
            final(self).input.increase.activated_spec() == old(self).input.increase.input,
            final(self).input.increase.just_pressed_spec() == (old(self).input.increase.input
                && !old(self).input.increase.activated_spec()),
            final(self).input.decrease.activated_spec() == old(self).input.decrease.input,
            final(self).input.decrease.just_pressed_spec() == (old(self).input.decrease.input
                && !old(self).input.decrease.activated_spec()),
    {
        self.input.track()
    }

    pub fn post_process_input(&mut self)
        ensures
            *final(self) == (EnumHolder { event: None, ..*old(self) }),
    {
        self.event = None;
    }
}

} // verus!
