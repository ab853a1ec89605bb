use vstd::prelude::*;

use crate::general_types::{next_enum_variant, next_variant, previous_enum_variant, previous_variant, EnumOptions, OptionCursor};
use crate::ui_controller::enum_ui::{EnumHolder, EnumUi, key_texts};

verus! {

/// The shape in which each pixel is drawn.
#[derive(Copy, Clone, Debug, PartialEq, Eq, Structural)]
pub enum PixelGeometryKindOptions {
    Squares,
    Cubes,
}

impl EnumOptions for PixelGeometryKindOptions {
    open spec fn index(self) -> nat {
        match self {
            PixelGeometryKindOptions::Squares => 0,
            PixelGeometryKindOptions::Cubes => 1,
        }
    }

    open spec fn count() -> nat {
        2
    }

    open spec fn from_index_spec(i: nat) -> Self {
        if i == 0 {
            PixelGeometryKindOptions::Squares
        } else {
            PixelGeometryKindOptions::Cubes
        }
    }

    proof fn lemma_index(self) {
    }

    proof fn lemma_from_index(i: nat) {
    }

    fn to_index(&self) -> (r: usize) {
        match self {
            PixelGeometryKindOptions::Squares => 0,
            PixelGeometryKindOptions::Cubes => 1,
        }
    }

    fn from_index(i: usize) -> (r: Option<Self>) {
        match i {
            0 => Some(PixelGeometryKindOptions::Squares),
            1 => Some(PixelGeometryKindOptions::Cubes),
            _ => None,
        }
    }

    fn len() -> (r: usize) {
        2
    }
}

impl OptionCursor for PixelGeometryKindOptions {
    open spec fn next_spec(self) -> Self {
        next_variant(self)
    }

    open spec fn previous_spec(self) -> Self {
        previous_variant(self)
    }

    open spec fn can_step(self) -> bool {
        true
    }

    open spec fn maximum_reached_spec(self) -> bool {
        false
    }

    open spec fn minimum_reached_spec(self) -> bool {
        false
    }

    fn next_option(&mut self) {
        next_enum_variant(self);
    }

    fn previous_option(&mut self) {
        previous_enum_variant(self);
    }

    fn has_reached_maximum_limit(&self) -> (r: bool) {
        false
    }

    fn has_reached_minimum_limit(&self) -> (r: bool) {
        false
    }
}

impl EnumUi for PixelGeometryKindOptions {
    open spec fn label(self) -> Seq<char> {
        match self {
            PixelGeometryKindOptions::Squares => "Squares"@,
            PixelGeometryKindOptions::Cubes => "Cubes"@,
        }
    }

    open spec fn dispatch_tag_spec(self) -> Seq<char> {
        "back2front:pixel_geometry"@
    }

    open spec fn event_tag_spec(self) -> Seq<char> {
        ""@
    }

    open spec fn keys_inc_spec(self) -> Seq<Seq<char>> {
        seq!["v"@, "pixel-geometry-inc"@]
    }

    open spec fn keys_dec_spec(self) -> Seq<Seq<char>> {
        seq!["shift+v"@, "pixel-geometry-dec"@]
    }

    fn event_tag(&self) -> (r: &'static str) {
        ""
    }

    fn keys_inc(&self) -> (r: Vec<&'static str>) {
        let r = vec!["v", "pixel-geometry-inc"];
        proof {
            assert(key_texts(r@) =~= self.keys_inc_spec());
        }
        r
    }

    fn keys_dec(&self) -> (r: Vec<&'static str>) {
        let r = vec!["shift+v", "pixel-geometry-dec"];
        proof {
            assert(key_texts(r@) =~= self.keys_dec_spec());
        }
        r
    }

    fn dispatch_tag(&self) -> (r: &'static str) {
        "back2front:pixel_geometry"
    }

    fn to_string(&self) -> (r: String) {
        match self {
            PixelGeometryKindOptions::Squares => "Squares".to_owned(),
            PixelGeometryKindOptions::Cubes => "Cubes".to_owned(),
        }
    }
}

/// The setting of the pixel shape.
pub type PixelGeometryKind = EnumHolder<PixelGeometryKindOptions>;

/// The labels the user reads for the pixel geometries, each naming its own geometry.
pub proof fn lemma_pixel_geometry_labels()
    ensures
        PixelGeometryKindOptions::Squares.label() == "Squares"@,
        PixelGeometryKindOptions::Cubes.label() == "Cubes"@,
{
}

} // verus!
