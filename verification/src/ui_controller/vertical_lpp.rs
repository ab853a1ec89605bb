use vstd::prelude::*;

use crate::boolean_button::BooleanButton;
use crate::field_changer::{hits_max, hits_min, number_after, FieldChange, FieldChanger, FieldOperation};
use crate::general_types::IncDec;
use crate::text::{decimal, push_decimal, push_str};
use crate::ui_controller::{maximum_value, minimum_value, string_event, top_message, ui_events_view, UiEvent};

verus! {

/// How many screen lines each vertical pixel of the picture spans: from 1 to 20, stepped
/// by one with its keys or set by an event.
#[derive(Clone, Debug)]
pub struct VerticalLpp {
    pub input: IncDec<BooleanButton>,
    pub event: Option<usize>,
    pub value: usize,
}

/// The change that the keys pressed this frame and the last event ask of the setting.
pub open spec fn lpp_changer(input: IncDec<BooleanButton>, event: Option<usize>) -> FieldChanger<usize> {
    FieldChanger {
        incdec: IncDec {
            increase: input.increase.just_pressed_spec(),
            decrease: input.decrease.just_pressed_spec(),
        },
        trigger_handler: true,
        event_value: event,
        velocity: Some(1usize),
        min: Some(1usize),
        max: Some(20usize),
    }
}

/// The messages of a change to `value`: the limits hit, then, for a changed value, the
/// top-of-screen message (where extra messages are on) and the event with the number.
pub open spec fn lpp_events(value: int, hit_min: bool, hit_max: bool, triggered: bool, extra_messages: bool) -> Seq<
    (nat, Seq<char>, Seq<char>),
> {
    let limits = (if hit_min {
        seq![minimum_value("1"@)]
    } else {
        seq![]
    }) + (if hit_max {
        seq![maximum_value("20"@)]
    } else {
        seq![]
    });
    let top = if triggered && extra_messages {
        seq![top_message("V. lines per pixel: "@ + decimal(value as nat))]
    } else {
        seq![]
    };
    let report = if triggered {
        seq![string_event("back2front:change_vertical_lpp"@, decimal(value as nat))]
    } else {
        seq![]
    };
    limits + top + report
}

impl VerticalLpp {
    pub fn from(value: usize) -> (r: VerticalLpp)
        ensures
            r.value == value,
            r.event is None,
            r.input == (IncDec { increase: BooleanButton::released(), decrease: BooleanButton::released() }),
    {
        VerticalLpp {
            input: IncDec { increase: BooleanButton::new(), decrease: BooleanButton::new() },
            event: None,
            value,
        }
    }

    pub fn event_tag(&self) -> (r: &'static str)
        ensures
            r@ == "front2back:vertical-lpp"@,
    {
        "front2back:vertical-lpp"
    }

    pub fn keys_inc(&self) -> (r: Vec<&'static str>)
        ensures
            r@.len() == 2 && r@[0]@ == "k"@ && r@[1]@ == "vertical-lpp-inc"@,
    {
        vec!["k", "vertical-lpp-inc"]
    }

    pub fn keys_dec(&self) -> (r: Vec<&'static str>)
        ensures
            r@.len() == 2 && r@[0]@ == "shift+k"@ && r@[1]@ == "vertical-lpp-dec"@,
    {
        vec!["shift+k", "vertical-lpp-dec"]
    }

    /// Steps the setting by one for the keys pressed this frame, or sets it to the event's
    /// value, kept between 1 and 20; returns whether it changed, with the messages for the
    /// front end.
    pub fn update(&mut self, extra_messages: bool) -> (r: (bool, Vec<UiEvent>))
        ensures
            final(self).value == number_after(
                FieldOperation::Sums,
                old(self).value as int,
                lpp_changer(old(self).input, old(self).event),
            ),
            r.0 == (old(self).value != final(self).value),
            ui_events_view(r.1@) == lpp_events(
                final(self).value as int,
                hits_min(FieldOperation::Sums, old(self).value as int, lpp_changer(old(self).input, old(self).event)),
                hits_max(FieldOperation::Sums, old(self).value as int, lpp_changer(old(self).input, old(self).event)),
                r.0,
                extra_messages,
            ),
            final(self).input == old(self).input,
            final(self).event == old(self).event,
            !old(self).input.increase.just_pressed_spec() && !old(self).input.decrease.just_pressed_spec()
                ==> final(self).value == match old(self).event {
                Some(v) => if v < 1 {
                    1
                } else if v > 20 {
                    20
                } else {
                    v
                },
                None => if old(self).value < 1 {
                    1
                } else if old(self).value > 20 {
                    20
                } else {
                    old(self).value
                },
            },
    {
        let inputs = self.input.to_just_pressed();
        let changer = FieldChanger::new(inputs).set_progression(1usize).set_min(1usize).set_max(
            20usize,
        ).set_event_value(self.event).set_trigger_handler();
        let change = changer.process_with_sums(&mut self.value);
        let mut events: Vec<UiEvent> = Vec::new();
        if change.minimum_notice {
            events.push(UiEvent::MinimumValue("1".to_owned()));
        }
        if change.maximum_notice {
            events.push(UiEvent::MaximumValue("20".to_owned()));
        }
        if change.triggered {
            if extra_messages {
                let mut m = "V. lines per pixel: ".to_owned();
                push_decimal(&mut m, self.value as u64);
                events.push(UiEvent::TopMessage(m));
            }
            let mut n = String::new();
            push_decimal(&mut n, self.value as u64);
            events.push(UiEvent::StringEvent("back2front:change_vertical_lpp".to_owned(), n));
        }
        proof {
            reveal_strlit("1");
            reveal_strlit("20");
            assert(ui_events_view(events@) =~= lpp_events(
                self.value as int,
                change.minimum_notice,
                change.maximum_notice,
                change.triggered,
                extra_messages,
            ));
        }
        (change.triggered, events)
    }

    pub fn reset_inputs(&mut self)
        ensures
            final(self).value == old(self).value,
            final(self).event is None,
            final(self).input.increase == (BooleanButton { input: false, ..old(self).input.increase }),
            final(self).input.decrease == (BooleanButton { input: false, ..old(self).input.decrease }),
    {
        self.event = None;
        self.input.increase.input = false;
        self.input.decrease.input = false;
    }

    pub fn read_event(&mut self, value: usize)
        ensures
            final(self).event == Some(value),
            final(self).value == old(self).value,
            final(self).input == old(self).input,
    {
        self.event = Some(value);
    }

    pub fn read_key_inc(&mut self, pressed: bool)
        ensures
            final(self).input.increase == (BooleanButton { input: pressed, ..old(self).input.increase }),
            final(self).input.decrease == old(self).input.decrease,
            final(self).value == old(self).value,
            final(self).event == old(self).event,
    {
        self.input.increase.input = pressed;
    }

    pub fn read_key_dec(&mut self, pressed: bool)
        ensures
            final(self).input.decrease == (BooleanButton { input: pressed, ..old(self).input.decrease }),
            final(self).input.increase == old(self).input.increase,
            final(self).value == old(self).value,
            final(self).event == old(self).event,
    {
        self.input.decrease.input = pressed;
    }

    pub fn pre_process_input(&mut self)
        ensures
            final(self).value == old(self).value,
            final(self).event == old(self).event,
            final(self).input.increase.just_pressed_spec() == (old(self).input.increase.input
                && !old(self).input.increase.activated_spec()),
            final(self).input.decrease.just_pressed_spec() == (old(self).input.decrease.input
                && !old(self).input.decrease.activated_spec()),
            final(self).input.increase.activated_spec() == old(self).input.increase.input,
            final(self).input.decrease.activated_spec() == old(self).input.decrease.input,
    {
        self.input.track()
    }

    pub fn post_process_input(&mut self)
        ensures
            final(self).event is None,
            final(self).value == old(self).value,
            final(self).input == old(self).input,
    {
        self.event = None;
    }
}

/// After an update the setting lies between 1 and 20, whatever it was and whatever the
/// keys and the event asked.
pub proof fn lemma_lpp_stays_in_range(value: int, input: IncDec<BooleanButton>, event: Option<usize>)
    ensures
        1 <= number_after(FieldOperation::Sums, value, lpp_changer(input, event)) <= 20,
{
}

/// With no key just pressed, the value the front end sends becomes the setting, brought
/// within 1 to 20; with no value sent, the setting stays.
pub proof fn lemma_event_sets_lpp(value: int, input: IncDec<BooleanButton>, event: Option<usize>)
    requires
        !input.increase.just_pressed_spec(),
        !input.decrease.just_pressed_spec(),
    ensures
        number_after(FieldOperation::Sums, value, lpp_changer(input, event)) == match event {
            Some(v) => if v < 1 {
                1
            } else if v > 20 {
                20
            } else {
                v as int
            },
            None => if value < 1 {
                1
            } else if value > 20 {
                20
            } else {
                value
            },
        },
{
}

} // verus!
