use vstd::prelude::*;

use crate::general_types::Size2D;
use crate::input_types::{Input, InputEventValue, Pressed};
use crate::text::{lowercase, to_lowercase};

verus! {

/// The aspect ratio that an image of `height` lines is shown at, as a label and a ratio
/// `(numerator, denominator)`: the handheld consoles by their screen heights, squared
/// pixels above 540 lines, and 4:3 for the rest.
pub open spec fn aspect_ratio_for(width: u32, height: u32) -> (Seq<char>, (u32, u32)) {
    if height == 102 {
        ("1.57:1 (Atari Lynx) on full image."@, (157, 100))
    } else if height == 144 {
        ("1.11:1 (Game Boy) on full image."@, (111, 100))
    } else if height == 152 {
        ("21:20 (Neo Geo Pocket) on full image."@, (21, 20))
    } else if height == 160 {
        ("3:2 (Game Boy Advance) on full image."@, (3, 2))
    } else if height == 192 {
        ("4:3 (Nintendo DS) on full image."@, (4, 3))
    } else if height == 272 {
        ("44:25 (PSP) on full image."@, (44, 25))
    } else if height == 544 {
        ("44:25 (PS Vita) on full image."@, (44, 25))
    } else if height > 540 {
        ("Squared pixels."@, (width, height))
    } else {
        ("4:3 on full image."@, (4, 3))
    }
}

/// The aspect ratio that an image is shown at by default, with the message that names it;
/// the ratio is `numerator / denominator` (1.57:1 is 157 / 100).
pub fn calculate_aspect_ratio_from_image_size(image_size: Size2D<u32>) -> (r: (&'static str, (u32, u32)))
    ensures
        (r.0@, r.1) == aspect_ratio_for(image_size.width, image_size.height),
{
    if image_size.height == 102 {
        ("1.57:1 (Atari Lynx) on full image.", (157, 100))
    } else if image_size.height == 144 {
        ("1.11:1 (Game Boy) on full image.", (111, 100))
    } else if image_size.height == 152 {
        ("21:20 (Neo Geo Pocket) on full image.", (21, 20))
    } else if image_size.height == 160 {
        ("3:2 (Game Boy Advance) on full image.", (3, 2))
    } else if image_size.height == 192 {
        ("4:3 (Nintendo DS) on full image.", (4, 3))
    } else if image_size.height == 272 {
        ("44:25 (PSP) on full image.", (44, 25))
    } else if image_size.height == 544 {
        ("44:25 (PS Vita) on full image.", (44, 25))
    } else if image_size.height > 540 {
        ("Squared pixels.", (image_size.width, image_size.height))
    } else {
        ("4:3 on full image.", (4, 3))
    }
}

/// What an input event does to the input of the tick. The hotkey events are handed back,
/// as a key and whether it goes down, for the hotkey actions to take: a key in lower case,
/// and the primary button as `mouse_click`. A wheel turn counts only while the simulation
/// has the focus; a lost window focus puts the input at rest; the other events are kept
/// as values for the tick.
pub fn apply_input_event(input: &mut Input, value: InputEventValue) -> (r: Option<(String, Pressed)>)
    ensures
        match value {
            InputEventValue::Keyboard { pressed, key } => *final(input) == *old(input) && (r matches Some(
                (k, p),
            ) && k@ == lowercase(key@) && p == pressed),
            InputEventValue::MouseClick(pressed) => *final(input) == *old(input) && (r matches Some((k, p))
                && k@ == "mouse_click"@ && p == pressed),
            InputEventValue::MouseMove { x, y } => r is None && *final(input) == (Input {
                mouse_position_x: x,
                mouse_position_y: y,
                ..*old(input)
            }),
            InputEventValue::MouseWheel(bits) => r is None && *final(input) == if old(input).canvas_focused {
                Input { mouse_scroll_y_bits: bits, ..*old(input) }
            } else {
                *old(input)
            },
            InputEventValue::BlurredWindow => r is None && final(input).is_at_rest() && final(input).now_bits
                == old(input).now_bits,
            InputEventValue::PixelWidth(bits) => r is None && *final(input) == (Input {
                event_pixel_width: Some(bits),
                ..*old(input)
            }),
            InputEventValue::Camera(change) => r is None && *final(input) == (Input {
                event_camera: Some(change),
                ..*old(input)
            }),
            InputEventValue::CustomScalingResolutionWidth(bits) => r is None && *final(input) == (Input {
                event_scaling_resolution_width: Some(bits),
                ..*old(input)
            }),
            InputEventValue::CustomScalingResolutionHeight(bits) => r is None && *final(input) == (Input {
                event_scaling_resolution_height: Some(bits),
                ..*old(input)
            }),
            InputEventValue::CustomScalingAspectRatioX(bits) => r is None && *final(input) == (Input {
                event_scaling_aspect_ratio_x: Some(bits),
                ..*old(input)
            }),
            InputEventValue::CustomScalingAspectRatioY(bits) => r is None && *final(input) == (Input {
                event_scaling_aspect_ratio_y: Some(bits),
                ..*old(input)
            }),
            InputEventValue::CustomScalingStretchNearest(flag) => r is None && *final(input) == (Input {
                event_custom_scaling_stretch_nearest: Some(flag),
                ..*old(input)
            }),
            InputEventValue::ViewportResize(width, height) => r is None && *final(input) == (Input {
                event_viewport_resize: Some(Size2D { width, height }),
                ..*old(input)
            }),
            InputEventValue::NoEvent => r is None && *final(input) == *old(input),
        },
{
    match value {
        InputEventValue::Keyboard { pressed, key } => Some((to_lowercase(key.as_str()), pressed)),
        InputEventValue::MouseClick(pressed) => Some(("mouse_click".to_owned(), pressed)),
        InputEventValue::MouseMove { x, y } => {
            input.mouse_position_x = x;
            input.mouse_position_y = y;
            None
        },
        InputEventValue::MouseWheel(bits) => {
            if input.canvas_focused {
                input.mouse_scroll_y_bits = bits;
            }
            None
        },
        InputEventValue::BlurredWindow => {
            let now_bits = input.now_bits;
            *input = Input::new(now_bits);
            None
        },
        InputEventValue::PixelWidth(bits) => {
            input.event_pixel_width = Some(bits);
            None
        },
        InputEventValue::Camera(change) => {
            input.event_camera = Some(change);
            None
        },
        InputEventValue::CustomScalingResolutionWidth(bits) => {
            input.event_scaling_resolution_width = Some(bits);
            None
        },
        InputEventValue::CustomScalingResolutionHeight(bits) => {
            input.event_scaling_resolution_height = Some(bits);
            None
        },
        InputEventValue::CustomScalingAspectRatioX(bits) => {
            input.event_scaling_aspect_ratio_x = Some(bits);
            None
        },
        InputEventValue::CustomScalingAspectRatioY(bits) => {
            input.event_scaling_aspect_ratio_y = Some(bits);
            None
        },
        InputEventValue::CustomScalingStretchNearest(flag) => {
            input.event_custom_scaling_stretch_nearest = Some(flag);
            None
        },
        InputEventValue::ViewportResize(width, height) => {
            input.event_viewport_resize = Some(Size2D { width, height });
            None
        },
        InputEventValue::NoEvent => None,
    }
}

/// The screens of the handheld consoles are shown at their own aspect ratios, whatever
/// the width of the image: the Lynx at 1.57:1, the Game Boy at 1.11:1, the Neo Geo Pocket
/// at 21:20, the Game Boy Advance at 3:2, the DS at 4:3, the PSP and the PS Vita at 44:25;
/// images above 540 lines keep square pixels, and the others are shown at 4:3.
pub proof fn lemma_console_aspect_ratios(width: u32, height: u32)
    ensures
        aspect_ratio_for(width, 102) == ("1.57:1 (Atari Lynx) on full image."@, (157u32, 100u32)),
        aspect_ratio_for(width, 144) == ("1.11:1 (Game Boy) on full image."@, (111u32, 100u32)),
        aspect_ratio_for(width, 152) == ("21:20 (Neo Geo Pocket) on full image."@, (21u32, 20u32)),
        aspect_ratio_for(width, 160) == ("3:2 (Game Boy Advance) on full image."@, (3u32, 2u32)),
        aspect_ratio_for(width, 192) == ("4:3 (Nintendo DS) on full image."@, (4u32, 3u32)),
        aspect_ratio_for(width, 272) == ("44:25 (PSP) on full image."@, (44u32, 25u32)),
        aspect_ratio_for(width, 544) == ("44:25 (PS Vita) on full image."@, (44u32, 25u32)),
        height > 540 && height != 544 ==> aspect_ratio_for(width, height).1 == (width, height),
        height <= 540 && height != 102 && height != 144 && height != 152 && height != 160 && height != 192
            && height != 272 ==> aspect_ratio_for(width, height).1 == (4u32, 3u32),
{
}

} // verus!
