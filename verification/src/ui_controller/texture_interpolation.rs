use vstd::prelude::*;

use crate::general_types::{next_enum_variant, next_variant, previous_enum_variant, previous_variant, EnumOptions, OptionCursor};
use crate::ui_controller::enum_ui::{EnumHolder, EnumUi, key_texts};

verus! {

/// How the source texture is sampled.
#[derive(Copy, Clone, Debug, PartialEq, Eq, Structural)]
pub enum TextureInterpolationOptions {
    Nearest,
    Linear,
}

impl EnumOptions for TextureInterpolationOptions {
    open spec fn index(self) -> nat {
        match self {
            TextureInterpolationOptions::Nearest => 0,
            TextureInterpolationOptions::Linear => 1,
        }
    }

    open spec fn count() -> nat {
        2
    }

    open spec fn from_index_spec(i: nat) -> Self {
        if i == 0 {
            TextureInterpolationOptions::Nearest
        } else {
            TextureInterpolationOptions::Linear
        }
    }

    proof fn lemma_index(self) {
    }

    proof fn lemma_from_index(i: nat) {
    }

    fn to_index(&self) -> (r: usize) {
        match self {
            TextureInterpolationOptions::Nearest => 0,
            TextureInterpolationOptions::Linear => 1,
        }
    }

    fn from_index(i: usize) -> (r: Option<Self>) {
        match i {
            0 => Some(TextureInterpolationOptions::Nearest),
            1 => Some(TextureInterpolationOptions::Linear),
            _ => None,
        }
    }

    fn len() -> (r: usize) {
        2
    }
}

impl OptionCursor for TextureInterpolationOptions {
    open spec fn next_spec(self) -> Self {
        next_variant(self)
    }

    open spec fn previous_spec(self) -> Self {
        previous_variant(self)
    }

    open spec fn can_step(self) -> bool {
        true
    }

    open spec fn maximum_reached_spec(self) -> bool {
        false
    }

    open spec fn minimum_reached_spec(self) -> bool {
        false
    }

    fn next_option(&mut self) {
        next_enum_variant(self);
    }

    fn previous_option(&mut self) {
        previous_enum_variant(self);
    }

    fn has_reached_maximum_limit(&self) -> (r: bool) {
        false
    }

    fn has_reached_minimum_limit(&self) -> (r: bool) {
        false
    }
}

impl EnumUi for TextureInterpolationOptions {
    open spec fn label(self) -> Seq<char> {
        match self {
            TextureInterpolationOptions::Nearest => "Nearest"@,
            TextureInterpolationOptions::Linear => "Linear"@,
        }
    }

    open spec fn dispatch_tag_spec(self) -> Seq<char> {
        "back2front:texture_interpolation"@
    }

    open spec fn event_tag_spec(self) -> Seq<char> {
        ""@
    }

    open spec fn keys_inc_spec(self) -> Seq<Seq<char>> {
        seq!["h"@, "texture-interpolation-inc"@]
    }

    open spec fn keys_dec_spec(self) -> Seq<Seq<char>> {
        seq!["shift+h"@, "texture-interpolation-dec"@]
    }

    fn event_tag(&self) -> (r: &'static str) {
        ""
    }

    fn keys_inc(&self) -> (r: Vec<&'static str>) {
        let r = vec!["h", "texture-interpolation-inc"];
        proof {
            assert(key_texts(r@) =~= self.keys_inc_spec());
        }
        r
    }

    fn keys_dec(&self) -> (r: Vec<&'static str>) {
        let r = vec!["shift+h", "texture-interpolation-dec"];
        proof {
            assert(key_texts(r@) =~= self.keys_dec_spec());
        }
        r
    }

    fn dispatch_tag(&self) -> (r: &'static str) {
        "back2front:texture_interpolation"
    }

    fn to_string(&self) -> (r: String) {
        match self {
            TextureInterpolationOptions::Nearest => "Nearest".to_owned(),
            TextureInterpolationOptions::Linear => "Linear".to_owned(),
        }
    }
}

impl TextureInterpolationOptions {
    /// The option with a given number from the front end: 0 is nearest, anything else
    /// linear.
    pub fn from_number(value: usize) -> (r: TextureInterpolationOptions)
        ensures
            r == (if value == 0 {
                TextureInterpolationOptions::Nearest
            } else {
                TextureInterpolationOptions::Linear
            }),
    {
        if value == 0 {
            TextureInterpolationOptions::Nearest
        } else {
            TextureInterpolationOptions::Linear
        }
    }
}

/// The setting of the texture sampling.
pub type TextureInterpolation = EnumHolder<TextureInterpolationOptions>;

/// The labels the user reads for the texture filters, each naming its own filter.
pub proof fn lemma_texture_interpolation_labels()
    ensures
        TextureInterpolationOptions::Nearest.label() == "Nearest"@,
        TextureInterpolationOptions::Linear.label() == "Linear"@,
{
}

} // verus!
