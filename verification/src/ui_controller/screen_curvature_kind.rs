use vstd::prelude::*;

use crate::general_types::{next_enum_variant, next_variant, previous_enum_variant, previous_variant, EnumOptions, OptionCursor};
use crate::ui_controller::enum_ui::{EnumHolder, EnumUi, key_texts};

verus! {

/// How much the simulated screen bends.
#[derive(Copy, Clone, Debug, PartialEq, Eq, Structural)]
pub enum ScreenCurvatureKindOptions {
    Flat,
    Curved1,
    Curved2,
    Curved3,
    Pulse,
}

impl EnumOptions for ScreenCurvatureKindOptions {
    open spec fn index(self) -> nat {
        match self {
            ScreenCurvatureKindOptions::Flat => 0,
            ScreenCurvatureKindOptions::Curved1 => 1,
            ScreenCurvatureKindOptions::Curved2 => 2,
            ScreenCurvatureKindOptions::Curved3 => 3,
            ScreenCurvatureKindOptions::Pulse => 4,
        }
    }

    open spec fn count() -> nat {
        5
    }

    open spec fn from_index_spec(i: nat) -> Self {
        if i == 0 {
            ScreenCurvatureKindOptions::Flat
        } else if i == 1 {
            ScreenCurvatureKindOptions::Curved1
        } else if i == 2 {
            ScreenCurvatureKindOptions::Curved2
        } else if i == 3 {
            ScreenCurvatureKindOptions::Curved3
        } else {
            ScreenCurvatureKindOptions::Pulse
        }
    }

    proof fn lemma_index(self) {
    }

    proof fn lemma_from_index(i: nat) {
    }

    fn to_index(&self) -> (r: usize) {
        match self {
            ScreenCurvatureKindOptions::Flat => 0,
            ScreenCurvatureKindOptions::Curved1 => 1,
            ScreenCurvatureKindOptions::Curved2 => 2,
            ScreenCurvatureKindOptions::Curved3 => 3,
            ScreenCurvatureKindOptions::Pulse => 4,
        }
    }

    fn from_index(i: usize) -> (r: Option<Self>) {
        match i {
            0 => Some(ScreenCurvatureKindOptions::Flat),
            1 => Some(ScreenCurvatureKindOptions::Curved1),
            2 => Some(ScreenCurvatureKindOptions::Curved2),
            3 => Some(ScreenCurvatureKindOptions::Curved3),
            4 => Some(ScreenCurvatureKindOptions::Pulse),
            _ => None,
        }
    }

    fn len() -> (r: usize) {
        5
    }
}

impl OptionCursor for ScreenCurvatureKindOptions {
    open spec fn next_spec(self) -> Self {
        next_variant(self)
    }

    open spec fn previous_spec(self) -> Self {
        previous_variant(self)
    }

    open spec fn can_step(self) -> bool {
        true
    }

    open spec fn maximum_reached_spec(self) -> bool {
        false
    }

    open spec fn minimum_reached_spec(self) -> bool {
        false
    }

    fn next_option(&mut self) {
        next_enum_variant(self);
    }

    fn previous_option(&mut self) {
        previous_enum_variant(self);
    }

    fn has_reached_maximum_limit(&self) -> (r: bool) {
        false
    }

    fn has_reached_minimum_limit(&self) -> (r: bool) {
        false
    }
}

impl EnumUi for ScreenCurvatureKindOptions {
    open spec fn label(self) -> Seq<char> {
        match self {
            ScreenCurvatureKindOptions::Flat => "Flat"@,
            ScreenCurvatureKindOptions::Curved1 => "Curved 1"@,
            ScreenCurvatureKindOptions::Curved2 => "Curved 2"@,
            ScreenCurvatureKindOptions::Curved3 => "Curved 3"@,
            ScreenCurvatureKindOptions::Pulse => "Weavy"@,
        }
    }

    open spec fn dispatch_tag_spec(self) -> Seq<char> {
        "back2front:screen_curvature"@
    }

    open spec fn event_tag_spec(self) -> Seq<char> {
        ""@
    }

    open spec fn keys_inc_spec(self) -> Seq<Seq<char>> {
        seq!["b"@, "screen-curvature-inc"@]
    }

    open spec fn keys_dec_spec(self) -> Seq<Seq<char>> {
        seq!["shift+b"@, "screen-curvature-dec"@]
    }

    fn event_tag(&self) -> (r: &'static str) {
        ""
    }

    fn keys_inc(&self) -> (r: Vec<&'static str>) {
        let r = vec!["b", "screen-curvature-inc"];
        proof {
            assert(key_texts(r@) =~= self.keys_inc_spec());
        }
        r
    }

    fn keys_dec(&self) -> (r: Vec<&'static str>) {
        let r = vec!["shift+b", "screen-curvature-dec"];
        proof {
            assert(key_texts(r@) =~= self.keys_dec_spec());
        }
        r
    }

    fn dispatch_tag(&self) -> (r: &'static str) {
        "back2front:screen_curvature"
    }

    fn to_string(&self) -> (r: String) {
        match self {
            ScreenCurvatureKindOptions::Flat => "Flat".to_owned(),
            ScreenCurvatureKindOptions::Curved1 => "Curved 1".to_owned(),
            ScreenCurvatureKindOptions::Curved2 => "Curved 2".to_owned(),
            ScreenCurvatureKindOptions::Curved3 => "Curved 3".to_owned(),
            ScreenCurvatureKindOptions::Pulse => "Weavy".to_owned(),
        }
    }
}

/// The setting of the screen curvature.
pub type ScreenCurvatureKind = EnumHolder<ScreenCurvatureKindOptions>;

/// The labels the user reads for the screen curvatures, each naming its own curvature.
pub proof fn lemma_screen_curvature_labels()
    ensures
        ScreenCurvatureKindOptions::Flat.label() == "Flat"@,
        ScreenCurvatureKindOptions::Curved1.label() == "Curved 1"@,
        ScreenCurvatureKindOptions::Curved2.label() == "Curved 2"@,
        ScreenCurvatureKindOptions::Curved3.label() == "Curved 3"@,
        ScreenCurvatureKindOptions::Pulse.label() == "Weavy"@,
{
}

} // verus!
