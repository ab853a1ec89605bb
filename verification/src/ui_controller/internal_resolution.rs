use vstd::prelude::*;

use crate::boolean_button::BooleanButton;
use crate::field_changer::{option_after, options_can_step, options_change, FieldChanger};
use crate::general_types::{IncDec, OptionCursor};
use crate::internal_resolution::{
    can_step_resolution,
    lemma_resolution_view_injective,
    next_resolution,
    previous_resolution,
    resolution_label,
    resolution_wf,
    settle,
    settles,
    height_in_range,
    InternalResolution as Resolution,
    ResolutionView,
};
use crate::ui_controller::{maximum_value, minimum_value, string_event, ui_event_view, ui_events_view, UiEvent};

verus! {

/// The internal resolution as a setting: stepped with its keys, a step down from the
/// lowest heights staying where it is.
#[derive(Clone, Debug)]
pub struct InternalResolution {
    pub resolution: Resolution,
    pub changed: bool,
    pub input: IncDec<BooleanButton>,
}

impl InternalResolution {
    /// The resolution itself.
    pub open spec fn resolution_view(self) -> ResolutionView {
        self.resolution@
    }
}

/// The change that the keys pressed this frame ask of the setting.
pub open spec fn resolution_changer(input: IncDec<BooleanButton>) -> FieldChanger<InternalResolution> {
    FieldChanger {
        incdec: IncDec {
            increase: input.increase.just_pressed_spec(),
            decrease: input.decrease.just_pressed_spec(),
        },
        trigger_handler: true,
        event_value: None,
        velocity: None,
        min: None,
        max: None,
    }
}

/// The messages of a change of the resolution: the limit it hit, or the new resolution.
pub open spec fn resolution_events(v: ResolutionView, changed: bool) -> Seq<(nat, Seq<char>, Seq<char>)> {
    if changed && v.minimum_reached {
        seq![minimum_value(resolution_label(v.height))]
    } else if changed && v.maximum_reached {
        seq![maximum_value(resolution_label(v.height))]
    } else if changed {
        seq![string_event("back2front:internal_resolution"@, resolution_label(v.height))]
    } else {
        seq![]
    }
}

impl InternalResolution {
    /// A 4K resolution with no texture limit and no key held.
    pub fn new() -> (r: InternalResolution)
        ensures
            r.resolution_view() == (ResolutionView {
                max_texture_size: i32::MAX as int,
                height: 2160,
                width: 3840,
                minimum_reached: false,
                maximum_reached: false,
            }),
            !r.changed,
            r.input == (IncDec { increase: BooleanButton::released(), decrease: BooleanButton::released() }),
    {
        InternalResolution {
            resolution: Resolution::new(),
            changed: false,
            input: IncDec { increase: BooleanButton::new(), decrease: BooleanButton::new() },
        }
    }

    pub fn set_max_texture_size(&mut self, value: i32)
        ensures
            final(self).resolution_view() == (ResolutionView {
                max_texture_size: value as int,
                ..old(self).resolution_view()
            }),
            final(self).changed == old(self).changed,
            final(self).input == old(self).input,
    {
        self.resolution.set_max_texture_size(value);
    }

    /// Asks for the height `resolution`; see the resolution's own `set_resolution`.
    pub fn set_resolution(&mut self, resolution: i32)
        requires
            resolution != 0,
            height_in_range(resolution as int),
            settles(old(self).resolution_view().max_texture_size),
        ensures
            final(self).resolution_view() == settle(
                old(self).resolution_view().max_texture_size,
                resolution as int,
                old(self).resolution_view().minimum_reached,
                old(self).resolution_view().maximum_reached,
                -1,
            ),
            resolution_wf(final(self).resolution_view()),
            final(self).changed == old(self).changed,
            final(self).input == old(self).input,
    {
        self.resolution.settle_at(resolution, -1);
    }

    pub fn width(&self) -> (r: i32)
        ensures
            r == self.resolution_view().width,
    {
        self.resolution.width()
    }

    pub fn height(&self) -> (r: i32)
        ensures
            r == self.resolution_view().height,
    {
        self.resolution.height()
    }

    /// The label of the resolution, such as `720p` or `4K`.
    pub fn to_string(&self) -> (r: String)
        ensures
            r@ == resolution_label(self.resolution_view().height),
    {
        self.resolution.to_string()
    }

    pub fn event_tag(&self) -> (r: &'static str)
        ensures
            r@ == ""@,
    {
        ""
    }

    pub fn keys_inc(&self) -> (r: Vec<&'static str>)
        ensures
            r@.len() == 2 && r@[0]@ == "y"@ && r@[1]@ == "internal-resolution-inc"@,
    {
        vec!["y", "internal-resolution-inc"]
    }

    pub fn keys_dec(&self) -> (r: Vec<&'static str>)
        ensures
            r@.len() == 2 && r@[0]@ == "shift+y"@ && r@[1]@ == "internal-resolution-dec"@,
    {
        vec!["shift+y", "internal-resolution-dec"]
    }

    /// Steps the resolution for the keys pressed this frame; returns whether the change
    /// is to be reported (it hit no limit), with the messages for the front end.
    pub fn update(&mut self) -> (r: (bool, Vec<UiEvent>))
        requires
            options_can_step(*old(self), resolution_changer(old(self).input)),
        ensures
            final(self).resolution_view() == option_after(
                *old(self),
                resolution_changer(old(self).input),
            ).resolution_view(),
            r.0 == options_change(
                option_after(*old(self), resolution_changer(old(self).input)),
                resolution_changer(old(self).input),
            ).triggered,
            final(self).changed == r.0,
            final(self).input == old(self).input,
            ui_events_view(r.1@) == resolution_events(
                final(self).resolution_view(),
                old(self).input.increase.just_pressed_spec() || old(self).input.decrease.just_pressed_spec(),
            ),
    {
        let inputs = self.input.to_just_pressed();
        let changer: FieldChanger<InternalResolution> = FieldChanger::new(inputs).set_trigger_handler();
        let ghost before = *self;
        let mut value = self.clone_value();
        let change = changer.process_options(&mut value);
        let mut events: Vec<UiEvent> = Vec::new();
        let any = inputs.increase || inputs.decrease;
        if change.minimum_notice {
            events.push(UiEvent::MinimumValue(value.to_string()));
        } else if change.maximum_notice {
            events.push(UiEvent::MaximumValue(value.to_string()));
        } else if change.triggered {
            events.push(
                UiEvent::StringEvent("back2front:internal_resolution".to_owned(), value.to_string()),
            );
        }
        self.resolution = value.resolution;
        self.changed = change.triggered;
        proof {
            assert(ui_events_view(events@) =~= resolution_events(self.resolution_view(), any));
        }
        (change.triggered, events)
    }

    /// A copy of the setting, with the same resolution, inputs and flag.
    fn clone_value(&self) -> (r: InternalResolution)
        ensures
            r == *self,
    {
        let r = InternalResolution {
            resolution: self.resolution.clone_resolution(),
            changed: self.changed,
            input: self.input,
        };
        r
    }

    pub fn reset_inputs(&mut self)
        ensures
            final(self).resolution_view() == old(self).resolution_view(),
            final(self).changed == old(self).changed,
            final(self).input == (IncDec { increase: BooleanButton::released(), decrease: BooleanButton::released() }),
    {
        self.input = IncDec { increase: BooleanButton::new(), decrease: BooleanButton::new() };
    }

    pub fn read_key_inc(&mut self, pressed: bool)
        ensures
            final(self).input.increase == (BooleanButton { input: pressed, ..old(self).input.increase }),
            final(self).input.decrease == old(self).input.decrease,
            final(self).resolution_view() == old(self).resolution_view(),
            final(self).changed == old(self).changed,
    {
        self.input.increase.input = pressed;
    }

    pub fn read_key_dec(&mut self, pressed: bool)
        ensures
            final(self).input.decrease == (BooleanButton { input: pressed, ..old(self).input.decrease }),
            final(self).input.increase == old(self).input.increase,
            final(self).resolution_view() == old(self).resolution_view(),
            final(self).changed == old(self).changed,
    {
        self.input.decrease.input = pressed;
    }

    /// The message that reports the resolution to the front end.
    pub fn dispatch_event(&self) -> (r: UiEvent)
        ensures
            ui_event_view(r) == string_event(
                "back2front:internal_resolution"@,
                resolution_label(self.resolution_view().height),
            ),
    {
        UiEvent::StringEvent("back2front:internal_resolution".to_owned(), self.to_string())
    }

    pub fn pre_process_input(&mut self)
        ensures
            final(self).resolution_view() == old(self).resolution_view(),
            final(self).changed == old(self).changed,
            final(self).input.increase.just_pressed_spec() == (old(self).input.increase.input
                && !old(self).input.increase.activated_spec()),
            final(self).input.decrease.just_pressed_spec() == (old(self).input.decrease.input
                && !old(self).input.decrease.activated_spec()),
            final(self).input.increase.activated_spec() == old(self).input.increase.input,
            final(self).input.decrease.activated_spec() == old(self).input.decrease.input,
    {
        self.input.track();
    }
}

impl OptionCursor for InternalResolution {
    open spec fn next_spec(self) -> Self {
        choose|r: InternalResolution|
            r.resolution_view() == next_resolution(self.resolution_view(), -1) && r.changed
                == self.changed && r.input == self.input
    }

    open spec fn previous_spec(self) -> Self {
        choose|r: InternalResolution|
            r.resolution_view() == previous_resolution(self.resolution_view(), -1) && r.changed
                == self.changed && r.input == self.input
    }

    open spec fn can_step(self) -> bool {
        can_step_resolution(self.resolution_view())
    }

    open spec fn maximum_reached_spec(self) -> bool {
        self.resolution_view().maximum_reached
    }

    open spec fn minimum_reached_spec(self) -> bool {
        self.resolution_view().minimum_reached
    }

    fn next_option(&mut self) {
        let ghost before = *self;
        self.resolution.step_forward(-1);
        proof {
            let c = before.next_spec();
            assert(exists|r: InternalResolution|
                r.resolution_view() == next_resolution(before.resolution_view(), -1) && r.changed
                    == before.changed && r.input == before.input) by {
                assert(self.resolution_view() == next_resolution(before.resolution_view(), -1));
            }
            lemma_resolution_view_injective(c.resolution, self.resolution);
        }
    }

    fn previous_option(&mut self) {
        let ghost before = *self;
        self.resolution.step_back(-1);
        proof {
            let c = before.previous_spec();
            assert(exists|r: InternalResolution|
                r.resolution_view() == previous_resolution(before.resolution_view(), -1) && r.changed
                    == before.changed && r.input == before.input) by {
                assert(self.resolution_view() == previous_resolution(before.resolution_view(), -1));
            }
            lemma_resolution_view_injective(c.resolution, self.resolution);
        }
    }

    fn has_reached_maximum_limit(&self) -> (r: bool) {
        self.resolution.has_reached_maximum_limit()
    }

    fn has_reached_minimum_limit(&self) -> (r: bool) {
        self.resolution.has_reached_minimum_limit()
    }
}

} // verus!
