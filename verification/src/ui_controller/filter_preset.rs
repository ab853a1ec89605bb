use vstd::prelude::*;

use crate::general_types::IncDec;
use crate::text::str_eq;
use crate::ui_controller::{string_event, ui_event_view, UiEvent};

verus! {

/// The ready-made sets of filter settings.
#[derive(Copy, Clone, Debug, PartialEq, Eq, Structural)]
pub enum FilterPresetOptions {
    Sharp1,
    CrtApertureGrille1,
    CrtShadowMask1,
    CrtShadowMask2,
    DemoFlight1,
    Custom,
}

impl FilterPresetOptions {
    /// The name by which the front end knows the preset.
    pub open spec fn name(self) -> Seq<char> {
        match self {
            FilterPresetOptions::Sharp1 => "sharp-1"@,
            FilterPresetOptions::CrtApertureGrille1 => "crt-aperture-grille-1"@,
            FilterPresetOptions::CrtShadowMask1 => "crt-shadow-mask-1"@,
            FilterPresetOptions::CrtShadowMask2 => "crt-shadow-mask-2"@,
            FilterPresetOptions::DemoFlight1 => "demo-1"@,
            FilterPresetOptions::Custom => "custom"@,
        }
    }

    /// The description shown to the user.
    pub open spec fn description(self) -> Seq<char> {
        match self {
            FilterPresetOptions::Sharp1 => "Sharp 1"@,
            FilterPresetOptions::CrtApertureGrille1 => "CRT Aperture Grille 1"@,
            FilterPresetOptions::CrtShadowMask1 => "CRT Shadow Mask 1"@,
            FilterPresetOptions::CrtShadowMask2 => "CRT Shadow Mask 2"@,
            FilterPresetOptions::DemoFlight1 => "Flight Demo"@,
            FilterPresetOptions::Custom => "Custom"@,
        }
    }

    /// Some preset is known by the name `s`.
    pub open spec fn is_name(s: Seq<char>) -> bool {
        exists|p: FilterPresetOptions| p.name() == s
    }

    /// The name by which the front end knows the preset.
    pub fn to_string(&self) -> (r: String)
        ensures
            r@ == self.name(),
    {
        match self {
            FilterPresetOptions::Sharp1 => "sharp-1".to_owned(),
            FilterPresetOptions::CrtApertureGrille1 => "crt-aperture-grille-1".to_owned(),
            FilterPresetOptions::CrtShadowMask1 => "crt-shadow-mask-1".to_owned(),
            FilterPresetOptions::CrtShadowMask2 => "crt-shadow-mask-2".to_owned(),
            FilterPresetOptions::DemoFlight1 => "demo-1".to_owned(),
            FilterPresetOptions::Custom => "custom".to_owned(),
        }
    }

    /// The preset with the name `name`; an unknown name is an error.
    pub fn from_str(name: &str) -> (r: Result<FilterPresetOptions, String>)
        ensures
            match r {
                Ok(p) => p.name() == name@,
                Err(e) => !Self::is_name(name@) && e@ == "Unknown name for a preset"@,
            },
    {
        if str_eq(name, "sharp-1") {
            Ok(FilterPresetOptions::Sharp1)
        } else if str_eq(name, "crt-aperture-grille-1") {
            Ok(FilterPresetOptions::CrtApertureGrille1)
        } else if str_eq(name, "crt-shadow-mask-1") {
            Ok(FilterPresetOptions::CrtShadowMask1)
        } else if str_eq(name, "crt-shadow-mask-2") {
            Ok(FilterPresetOptions::CrtShadowMask2)
        } else if str_eq(name, "demo-1") {
            Ok(FilterPresetOptions::DemoFlight1)
        } else if str_eq(name, "custom") {
            Ok(FilterPresetOptions::Custom)
        } else {
            proof {
                assert forall|p: FilterPresetOptions| p.name() != name@ by {
                    match p {
                        FilterPresetOptions::Sharp1 => {},
                        FilterPresetOptions::CrtApertureGrille1 => {},
                        FilterPresetOptions::CrtShadowMask1 => {},
                        FilterPresetOptions::CrtShadowMask2 => {},
                        FilterPresetOptions::DemoFlight1 => {},
                        FilterPresetOptions::Custom => {},
                    }
                }
            }
            Err("Unknown name for a preset".to_owned())
        }
    }

    /// The description shown to the user.
    pub fn get_description(&self) -> (r: &'static str)
        ensures
            r@ == self.description(),
    {
        match self {
            FilterPresetOptions::Sharp1 => "Sharp 1",
            FilterPresetOptions::CrtApertureGrille1 => "CRT Aperture Grille 1",
            FilterPresetOptions::CrtShadowMask1 => "CRT Shadow Mask 1",
            FilterPresetOptions::CrtShadowMask2 => "CRT Shadow Mask 2",
            FilterPresetOptions::DemoFlight1 => "Flight Demo",
            FilterPresetOptions::Custom => "Custom",
        }
    }
}

/// No two presets share a name, so a name read back gives the preset it was written
/// from.
pub proof fn lemma_preset_names_are_distinct(p: FilterPresetOptions, q: FilterPresetOptions)
    ensures
        p.name() == q.name() ==> p == q,
{
    reveal_strlit("sharp-1");
    reveal_strlit("crt-aperture-grille-1");
    reveal_strlit("crt-shadow-mask-1");
    reveal_strlit("crt-shadow-mask-2");
    reveal_strlit("demo-1");
    reveal_strlit("custom");
    if p.name() == q.name() && p != q {
        assert(p.name().len() == q.name().len());
        assert(p.name()[0] == q.name()[0]);
        if p.name().len() > 16 && q.name().len() > 16 {
            assert(p.name()[16] == q.name()[16]);
        }
    }
}

/// The names by which the front end selects the presets: each preset answers to the
/// name of its own kind and number, so `from_str` of that name gives it back and
/// `to_string` writes it.
pub proof fn lemma_preset_names(p: FilterPresetOptions)
    ensures
        p == FilterPresetOptions::Sharp1 <==> p.name() == "sharp-1"@,
        p == FilterPresetOptions::CrtApertureGrille1 <==> p.name() == "crt-aperture-grille-1"@,
        p == FilterPresetOptions::CrtShadowMask1 <==> p.name() == "crt-shadow-mask-1"@,
        p == FilterPresetOptions::CrtShadowMask2 <==> p.name() == "crt-shadow-mask-2"@,
        p == FilterPresetOptions::DemoFlight1 <==> p.name() == "demo-1"@,
        p == FilterPresetOptions::Custom <==> p.name() == "custom"@,
{
    lemma_preset_names_are_distinct(p, FilterPresetOptions::Sharp1);
    lemma_preset_names_are_distinct(p, FilterPresetOptions::CrtApertureGrille1);
    lemma_preset_names_are_distinct(p, FilterPresetOptions::CrtShadowMask1);
    lemma_preset_names_are_distinct(p, FilterPresetOptions::CrtShadowMask2);
    lemma_preset_names_are_distinct(p, FilterPresetOptions::DemoFlight1);
    lemma_preset_names_are_distinct(p, FilterPresetOptions::Custom);
}

/// Reading a preset back from its name gives the same preset.
pub proof fn lemma_preset_name_round_trip(p: FilterPresetOptions, r: Result<FilterPresetOptions, String>)
    requires
        match r {
            Ok(q) => q.name() == p.name(),
            Err(_) => !FilterPresetOptions::is_name(p.name()),
        },
    ensures
        r == Ok::<FilterPresetOptions, String>(p),
{
    match r {
        Ok(q) => lemma_preset_names_are_distinct(p, q),
        Err(_) => assert(FilterPresetOptions::is_name(p.name())),
    }
}

impl Default for FilterPresetOptions {
    fn default() -> (r: FilterPresetOptions)
        ensures
            r == FilterPresetOptions::CrtApertureGrille1,
    {
        FilterPresetOptions::CrtApertureGrille1
    }
}

/// The setting of the filter preset, chosen by an event from the front end.
#[derive(Clone, Debug)]
pub struct FilterPreset {
    pub input: IncDec<bool>,
    pub event: Option<FilterPresetOptions>,
    pub value: FilterPresetOptions,
}

impl FilterPreset {
    pub fn from(value: FilterPresetOptions) -> (r: FilterPreset)
        ensures
            r.value == value,
            r.event is None,
            r.input == (IncDec { increase: false, decrease: false }),
    {
        FilterPreset { input: IncDec { increase: false, decrease: false }, event: None, value }
    }

    pub fn event_tag(&self) -> (r: &'static str)
        ensures
            r@ == "front2back:filter-presets-selected"@,
    {
        "front2back:filter-presets-selected"
    }

    /// The preset has no hotkeys.
    pub fn keys_inc(&self) -> (r: Vec<&'static str>)
        ensures
            r@.len() == 0,
    {
        Vec::new()
    }

    /// The preset has no hotkeys.
    pub fn keys_dec(&self) -> (r: Vec<&'static str>)
        ensures
            r@.len() == 0,
    {
        Vec::new()
    }

    /// The preset changes only through events: a frame changes nothing.
    pub fn update(&mut self) -> (r: (bool, Vec<UiEvent>))
        ensures
            *final(self) == *old(self),
            !r.0,
            r.1@.len() == 0,
    {
        (false, Vec::new())
    }

    /// Takes the preset of the last event, if any.
    pub fn apply_event(&mut self)
        ensures
            final(self).value == (match old(self).event {
                Some(v) => v,
                None => old(self).value,
            }),
            final(self).event == old(self).event,
            final(self).input == old(self).input,
    {
        if let Some(v) = self.event {
            self.value = v;
        }
    }

    pub fn reset_inputs(&mut self)
        ensures
            *final(self) == (FilterPreset {
                event: None,
                input: IncDec { increase: false, decrease: false },
                ..*old(self)
            }),
    {
        self.event = None;
        self.input.increase = false;
        self.input.decrease = false;
    }

    /// Reads the name of a preset from an event; an unknown name is an error and leaves
    /// the setting as it was.
    pub fn read_event(&mut self, name: &str) -> (r: Result<(), String>)
        ensures
            FilterPresetOptions::is_name(name@) <==> r is Ok,
            r is Ok ==> (final(self).event matches Some(p) && p.name() == name@),
            r is Ok ==> final(self).value == old(self).value && final(self).input == old(self).input,
            r matches Err(e) ==> *final(self) == *old(self) && e@ == "Unknown name for a preset"@,
    {
        match FilterPresetOptions::from_str(name) {
            Ok(p) => {
                self.event = Some(p);
                Ok(())
            },
            Err(e) => Err(e),
        }
    }

    pub fn read_key_inc(&mut self, pressed: bool)
        ensures
            *final(self) == (FilterPreset {
                input: IncDec { increase: pressed, ..old(self).input },
                ..*old(self)
            }),
    {
        self.input.increase = pressed;
    }

    pub fn read_key_dec(&mut self, pressed: bool)
        ensures
            *final(self) == (FilterPreset {
                input: IncDec { decrease: pressed, ..old(self).input },
                ..*old(self)
            }),
    {
        self.input.decrease = pressed;
    }

    /// The message that reports the preset to the front end.
    pub fn dispatch_event(&self) -> (r: UiEvent)
        ensures
            ui_event_view(r) == string_event("back2front:preset_selected_name"@, self.value.name()),
    {
        UiEvent::StringEvent("back2front:preset_selected_name".to_owned(), self.value.to_string())
    }

    pub fn post_process_input(&mut self)
        ensures
            *final(self) == (FilterPreset { event: None, ..*old(self) }),
    {
        self.event = None;
    }
}

/// What a frame in which the filters `changed` does to the preset: a named preset turns
/// into the custom one, which is then announced to the front end; the custom preset
/// records that it was changed; the flight demo keeps its name. Returns the preset, the
/// custom preset's changed flag, and whether the custom preset is to be announced.
pub open spec fn settled_preset(preset_kind: FilterPresetOptions, custom_is_changed: bool, changed: bool) -> (
    FilterPresetOptions,
    bool,
    bool,
) {
    if !changed {
        (preset_kind, custom_is_changed, false)
    } else if preset_kind != FilterPresetOptions::Custom && preset_kind != FilterPresetOptions::DemoFlight1 {
        (FilterPresetOptions::Custom, custom_is_changed, true)
    } else if preset_kind == FilterPresetOptions::Custom {
        (preset_kind, true, false)
    } else {
        (preset_kind, custom_is_changed, false)
    }
}

pub fn settle_filter_preset(preset_kind: FilterPresetOptions, custom_is_changed: bool, changed: bool) -> (r: (
    FilterPresetOptions,
    bool,
    bool,
))
    ensures
        r == settled_preset(preset_kind, custom_is_changed, changed),
{
    if changed {
        if preset_kind != FilterPresetOptions::Custom && preset_kind != FilterPresetOptions::DemoFlight1 {
            return (FilterPresetOptions::Custom, custom_is_changed, true);
        } else if preset_kind == FilterPresetOptions::Custom {
            return (preset_kind, true, false);
        }
    }
    (preset_kind, custom_is_changed, false)
}

/// The descriptions the user reads for the presets, each naming its own kind and number.
pub proof fn lemma_preset_descriptions()
    ensures
        FilterPresetOptions::Sharp1.description() == "Sharp 1"@,
        FilterPresetOptions::CrtApertureGrille1.description() == "CRT Aperture Grille 1"@,
        FilterPresetOptions::CrtShadowMask1.description() == "CRT Shadow Mask 1"@,
        FilterPresetOptions::CrtShadowMask2.description() == "CRT Shadow Mask 2"@,
        FilterPresetOptions::DemoFlight1.description() == "Flight Demo"@,
        FilterPresetOptions::Custom.description() == "Custom"@,
{
}

} // verus!
