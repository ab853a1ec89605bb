use vstd::prelude::*;

use crate::boolean_button::BooleanButton;
use crate::general_types::IncDec;
use crate::input_types::{
    actions_view, keys_view, Boolean2DAction, BooleanAction, Controls, Input, KeyCodeBooleanAction, Pressed,
};
use crate::simulation_core_state::{event_of, ControllerEvents, KeyEventKind};
use crate::text::{concat, has_prefix, remove_all, remove_all_occurrences, starts_with, str_eq};

verus! {

/// The hotkey action bound to a key code, if any.
pub open spec fn key_action(k: Seq<char>) -> Option<BooleanAction> {
    if k == "mouse_click"@ {
        Some(BooleanAction::MouseClick)
    } else if k == "shift"@ || k == "left shift"@ || k == "right shift"@ {
        Some(BooleanAction::Shift)
    } else if k == "control"@ {
        Some(BooleanAction::Control)
    } else if k == "alt"@ {
        Some(BooleanAction::Alt)
    } else if k == "f4"@ || k == "capture-framebuffer"@ {
        Some(BooleanAction::Screenshot)
    } else if k == "reset-camera"@ {
        Some(BooleanAction::ResetPosition)
    } else if k == "reset-filters"@ {
        Some(BooleanAction::ResetFilters)
    } else if k == "input_focused"@ {
        Some(BooleanAction::InputFocused)
    } else if k == "canvas_focused"@ {
        Some(BooleanAction::CanvasFocused)
    } else if k == "escape"@ || k == "esc"@ || k == "quit-simulation"@ {
        Some(BooleanAction::Esc)
    } else if k == " "@ || k == "space"@ || k == "feature-close-panel"@ {
        Some(BooleanAction::Space)
    } else if k == "+"@ {
        Some(BooleanAction::RotateLeft)
    } else if k == "-"@ {
        Some(BooleanAction::RotateRight)
    } else if k == "arrowleft"@ || k == "left"@ || k == "\u{2190}"@ || k == "\u{25c0}"@ {
        Some(BooleanAction::TurnLeft)
    } else if k == "arrowright"@ || k == "right"@ || k == "\u{2192}"@ || k == "\u{25b6}"@ {
        Some(BooleanAction::TurnRight)
    } else if k == "arrowup"@ || k == "up"@ || k == "\u{2191}"@ || k == "\u{25b2}"@ {
        Some(BooleanAction::TurnUp)
    } else if k == "arrowdown"@ || k == "down"@ || k == "\u{2193}"@ || k == "\u{25bc}"@ {
        Some(BooleanAction::TurnDown)
    } else if k == "a"@ {
        Some(BooleanAction::WalkLeft)
    } else if k == "d"@ {
        Some(BooleanAction::WalkRight)
    } else if k == "w"@ {
        Some(BooleanAction::WalkForward)
    } else if k == "s"@ {
        Some(BooleanAction::WalkBackward)
    } else if k == "q"@ {
        Some(BooleanAction::WalkUp)
    } else if k == "e"@ {
        Some(BooleanAction::WalkDown)
    } else if k == "scaling-method-inc"@ {
        Some(BooleanAction::ScalingMethod(Boolean2DAction::Increase))
    } else if k == "scaling-method-dec"@ {
        Some(BooleanAction::ScalingMethod(Boolean2DAction::Decrease))
    } else if k == "custom-scaling-resolution-width-inc"@ {
        Some(BooleanAction::ScalingResolutionWidth(Boolean2DAction::Increase))
    } else if k == "custom-scaling-resolution-width-dec"@ {
        Some(BooleanAction::ScalingResolutionWidth(Boolean2DAction::Decrease))
    } else if k == "custom-scaling-resolution-height-inc"@ {
        Some(BooleanAction::ScalingResolutionHeight(Boolean2DAction::Increase))
    } else if k == "custom-scaling-resolution-height-dec"@ {
        Some(BooleanAction::ScalingResolutionHeight(Boolean2DAction::Decrease))
    } else if k == "custom-scaling-aspect-ratio-x-inc"@ {
        Some(BooleanAction::ScalingAspectRatioX(Boolean2DAction::Increase))
    } else if k == "custom-scaling-aspect-ratio-x-dec"@ {
        Some(BooleanAction::ScalingAspectRatioX(Boolean2DAction::Decrease))
    } else if k == "custom-scaling-aspect-ratio-y-inc"@ {
        Some(BooleanAction::ScalingAspectRatioY(Boolean2DAction::Increase))
    } else if k == "custom-scaling-aspect-ratio-y-dec"@ {
        Some(BooleanAction::ScalingAspectRatioY(Boolean2DAction::Decrease))
    } else if k == "f"@ || k == "move-speed-inc"@ {
        Some(BooleanAction::TranslationSpeed(Boolean2DAction::Increase))
    } else if k == "shift+f"@ || k == "move-speed-dec"@ {
        Some(BooleanAction::TranslationSpeed(Boolean2DAction::Decrease))
    } else if k == "r"@ || k == "pixel-speed-inc"@ {
        Some(BooleanAction::FilterSpeed(Boolean2DAction::Increase))
    } else if k == "shift+r"@ || k == "pixel-speed-dec"@ {
        Some(BooleanAction::FilterSpeed(Boolean2DAction::Decrease))
    } else if k == "turn-speed-inc"@ {
        Some(BooleanAction::TurnSpeed(Boolean2DAction::Increase))
    } else if k == "turn-speed-dec"@ {
        Some(BooleanAction::TurnSpeed(Boolean2DAction::Decrease))
    } else if k == "t"@ || k == "reset-speeds"@ {
        Some(BooleanAction::ResetSpeeds)
    } else if k == "camera-zoom-inc"@ {
        Some(BooleanAction::CameraZoom(Boolean2DAction::Increase))
    } else if k == "camera-zoom-dec"@ {
        Some(BooleanAction::CameraZoom(Boolean2DAction::Decrease))
    } else if k == "o"@ || k == "pixel-width-inc"@ {
        Some(BooleanAction::PixelWidth(Boolean2DAction::Increase))
    } else if k == "shift+o"@ || k == "pixel-width-dec"@ {
        Some(BooleanAction::PixelWidth(Boolean2DAction::Decrease))
    } else if k == "g"@ || k == "camera-movement-mode-inc"@ {
        Some(BooleanAction::NextCameraMovementMode(Boolean2DAction::Increase))
    } else if k == "shift+g"@ || k == "camera-movement-mode-dec"@ {
        Some(BooleanAction::NextCameraMovementMode(Boolean2DAction::Decrease))
    } else {
        None
    }
}

/// The hotkey action bound to a key code, if any.
pub fn to_boolean_action(k: &str) -> (r: Option<BooleanAction>)
    ensures
        r == key_action(k@),
{
    if str_eq(k, "mouse_click") {
        Some(BooleanAction::MouseClick)
    } else if str_eq(k, "shift") || str_eq(k, "left shift") || str_eq(k, "right shift") {
        Some(BooleanAction::Shift)
    } else if str_eq(k, "control") {
        Some(BooleanAction::Control)
    } else if str_eq(k, "alt") {
        Some(BooleanAction::Alt)
    } else if str_eq(k, "f4") || str_eq(k, "capture-framebuffer") {
        Some(BooleanAction::Screenshot)
    } else if str_eq(k, "reset-camera") {
        Some(BooleanAction::ResetPosition)
    } else if str_eq(k, "reset-filters") {
        Some(BooleanAction::ResetFilters)
    } else if str_eq(k, "input_focused") {
        Some(BooleanAction::InputFocused)
    } else if str_eq(k, "canvas_focused") {
        Some(BooleanAction::CanvasFocused)
    } else if str_eq(k, "escape") || str_eq(k, "esc") || str_eq(k, "quit-simulation") {
        Some(BooleanAction::Esc)
    } else if str_eq(k, " ") || str_eq(k, "space") || str_eq(k, "feature-close-panel") {
        Some(BooleanAction::Space)
    } else if str_eq(k, "+") {
        Some(BooleanAction::RotateLeft)
    } else if str_eq(k, "-") {
        Some(BooleanAction::RotateRight)
    } else if str_eq(k, "arrowleft") || str_eq(k, "left") || str_eq(k, "\u{2190}") || str_eq(
        k,
        "\u{25c0}",
    ) {
        Some(BooleanAction::TurnLeft)
    } else if str_eq(k, "arrowright") || str_eq(k, "right") || str_eq(k, "\u{2192}") || str_eq(
        k,
        "\u{25b6}",
    ) {
        Some(BooleanAction::TurnRight)
    } else if str_eq(k, "arrowup") || str_eq(k, "up") || str_eq(k, "\u{2191}") || str_eq(
        k,
        "\u{25b2}",
    ) {
        Some(BooleanAction::TurnUp)
    } else if str_eq(k, "arrowdown") || str_eq(k, "down") || str_eq(k, "\u{2193}") || str_eq(
        k,
        "\u{25bc}",
    ) {
        Some(BooleanAction::TurnDown)
    } else if str_eq(k, "a") {
        Some(BooleanAction::WalkLeft)
    } else if str_eq(k, "d") {
        Some(BooleanAction::WalkRight)
    } else if str_eq(k, "w") {
        Some(BooleanAction::WalkForward)
    } else if str_eq(k, "s") {
        Some(BooleanAction::WalkBackward)
    } else if str_eq(k, "q") {
        Some(BooleanAction::WalkUp)
    } else if str_eq(k, "e") {
        Some(BooleanAction::WalkDown)
    } else if str_eq(k, "scaling-method-inc") {
        Some(BooleanAction::ScalingMethod(Boolean2DAction::Increase))
    } else if str_eq(k, "scaling-method-dec") {
        Some(BooleanAction::ScalingMethod(Boolean2DAction::Decrease))
    } else if str_eq(k, "custom-scaling-resolution-width-inc") {
        Some(BooleanAction::ScalingResolutionWidth(Boolean2DAction::Increase))
    } else if str_eq(k, "custom-scaling-resolution-width-dec") {
        Some(BooleanAction::ScalingResolutionWidth(Boolean2DAction::Decrease))
    } else if str_eq(k, "custom-scaling-resolution-height-inc") {
        Some(BooleanAction::ScalingResolutionHeight(Boolean2DAction::Increase))
    } else if str_eq(k, "custom-scaling-resolution-height-dec") {
        Some(BooleanAction::ScalingResolutionHeight(Boolean2DAction::Decrease))
    } else if str_eq(k, "custom-scaling-aspect-ratio-x-inc") {
        Some(BooleanAction::ScalingAspectRatioX(Boolean2DAction::Increase))
    } else if str_eq(k, "custom-scaling-aspect-ratio-x-dec") {
        Some(BooleanAction::ScalingAspectRatioX(Boolean2DAction::Decrease))
    } else if str_eq(k, "custom-scaling-aspect-ratio-y-inc") {
        Some(BooleanAction::ScalingAspectRatioY(Boolean2DAction::Increase))
    } else if str_eq(k, "custom-scaling-aspect-ratio-y-dec") {
        Some(BooleanAction::ScalingAspectRatioY(Boolean2DAction::Decrease))
    } else if str_eq(k, "f") || str_eq(k, "move-speed-inc") {
        Some(BooleanAction::TranslationSpeed(Boolean2DAction::Increase))
    } else if str_eq(k, "shift+f") || str_eq(k, "move-speed-dec") {
        Some(BooleanAction::TranslationSpeed(Boolean2DAction::Decrease))
    } else if str_eq(k, "r") || str_eq(k, "pixel-speed-inc") {
        Some(BooleanAction::FilterSpeed(Boolean2DAction::Increase))
    } else if str_eq(k, "shift+r") || str_eq(k, "pixel-speed-dec") {
        Some(BooleanAction::FilterSpeed(Boolean2DAction::Decrease))
    } else if str_eq(k, "turn-speed-inc") {
        Some(BooleanAction::TurnSpeed(Boolean2DAction::Increase))
    } else if str_eq(k, "turn-speed-dec") {
        Some(BooleanAction::TurnSpeed(Boolean2DAction::Decrease))
    } else if str_eq(k, "t") || str_eq(k, "reset-speeds") {
        Some(BooleanAction::ResetSpeeds)
    } else if str_eq(k, "camera-zoom-inc") {
        Some(BooleanAction::CameraZoom(Boolean2DAction::Increase))
    } else if str_eq(k, "camera-zoom-dec") {
        Some(BooleanAction::CameraZoom(Boolean2DAction::Decrease))
    } else if str_eq(k, "o") || str_eq(k, "pixel-width-inc") {
        Some(BooleanAction::PixelWidth(Boolean2DAction::Increase))
    } else if str_eq(k, "shift+o") || str_eq(k, "pixel-width-dec") {
        Some(BooleanAction::PixelWidth(Boolean2DAction::Decrease))
    } else if str_eq(k, "g") || str_eq(k, "camera-movement-mode-inc") {
        Some(BooleanAction::NextCameraMovementMode(Boolean2DAction::Increase))
    } else if str_eq(k, "shift+g") || str_eq(k, "camera-movement-mode-dec") {
        Some(BooleanAction::NextCameraMovementMode(Boolean2DAction::Decrease))
    } else {
        None
    }
}

/// The modifier actions: Shift, Control and Alt.
pub open spec fn is_modifier(a: BooleanAction) -> bool {
    a == BooleanAction::Shift || a == BooleanAction::Control || a == BooleanAction::Alt
}

/// The prefix that a modifier adds to a key code.
pub open spec fn modifier_code(m: BooleanAction) -> Seq<char> {
    if m == BooleanAction::Shift {
        "shift+"@
    } else if m == BooleanAction::Control {
        "ctrl+"@
    } else {
        "alt+"@
    }
}

/// No modifier prefix is empty.
pub proof fn lemma_modifier_code_nonempty(m: BooleanAction)
    ensures
        modifier_code(m).len() > 0,
{
    reveal_strlit("shift+");
    reveal_strlit("ctrl+");
    reveal_strlit("alt+");
}

/// The prefix that a modifier adds to a key code.
pub fn get_modifier_code(modifier: BooleanAction) -> (r: &'static str)
    requires
        is_modifier(modifier),
    ensures
        r@ == modifier_code(modifier),
{
    match modifier {
        BooleanAction::Shift => "shift+",
        BooleanAction::Control => "ctrl+",
        _ => "alt+",
    }
}

/// The key code and action that `key` stands for while `modifier` is held, if the
/// modified key code is bound and `action` is not the modifier itself.
pub open spec fn modified_action(action: BooleanAction, key: Seq<char>, modifier: BooleanAction) -> Option<
    (Seq<char>, BooleanAction),
> {
    if action == modifier {
        None
    } else {
        let k = modifier_code(modifier) + key;
        match key_action(k) {
            Some(m) => Some((k, m)),
            None => None,
        }
    }
}

pub fn try_modify_action(action: BooleanAction, keycode: &str, modifier: BooleanAction) -> (r: Option<
    (String, BooleanAction),
>)
    requires
        is_modifier(modifier),
    ensures
        match r {
            Some((k, a)) => modified_action(action, keycode@, modifier) == Some((k@, a)),
            None => modified_action(action, keycode@, modifier) is None,
        },
{
    if action == modifier {
        return None;
    }
    let modified_keycode = concat(get_modifier_code(modifier), keycode);
    match to_boolean_action(&modified_keycode) {
        Some(modified_action) => Some((modified_keycode, modified_action)),
        None => None,
    }
}

/// The key code (when a held modifier changes it) and the action that pressing `key`
/// triggers: the first held modifier among Shift, Control and Alt applies.
pub open spec fn contextualized_action(shift: bool, control: bool, alt: bool, key: Seq<char>) -> (
    Option<Seq<char>>,
    Option<BooleanAction>,
) {
    match key_action(key) {
        None => (None, None),
        Some(action) => {
            let modification = if shift {
                modified_action(action, key, BooleanAction::Shift)
            } else if control {
                modified_action(action, key, BooleanAction::Control)
            } else if alt {
                modified_action(action, key, BooleanAction::Alt)
            } else {
                None
            };
            match modification {
                Some((k, m)) => (Some(k), Some(m)),
                None => (None, Some(action)),
            }
        },
    }
}

pub fn get_contextualized_action(input: &Input, keycode: &str) -> (r: (Option<String>, Option<BooleanAction>))
    ensures
        (match r.0 {
            Some(k) => Some(k@),
            None => None,
        }, r.1) == contextualized_action(input.shift, input.control, input.alt, keycode@),
{
    let action = match to_boolean_action(keycode) {
        None => return (None, None),
        Some(action) => action,
    };
    let maybe_modification = if input.shift {
        try_modify_action(action, keycode, BooleanAction::Shift)
    } else if input.control {
        try_modify_action(action, keycode, BooleanAction::Control)
    } else if input.alt {
        try_modify_action(action, keycode, BooleanAction::Alt)
    } else {
        None
    };
    match maybe_modification {
        Some((modified_keycode, modified_action)) => (Some(modified_keycode), Some(modified_action)),
        None => (None, Some(action)),
    }
}

/// Sets one flag of a pair.
pub open spec fn with_flag(pair: IncDec<bool>, d: Boolean2DAction, p: bool) -> IncDec<bool> {
    match d {
        Boolean2DAction::Increase => IncDec { increase: p, ..pair },
        Boolean2DAction::Decrease => IncDec { decrease: p, ..pair },
    }
}

/// Sets the raw state of a button.
pub open spec fn with_input(b: BooleanButton, p: bool) -> BooleanButton {
    BooleanButton { input: p, ..b }
}

/// Sets the raw state of one button of a pair.
pub open spec fn with_button(pair: IncDec<BooleanButton>, d: Boolean2DAction, p: bool) -> IncDec<
    BooleanButton,
> {
    match d {
        Boolean2DAction::Increase => IncDec { increase: with_input(pair.increase, p), ..pair },
        Boolean2DAction::Decrease => IncDec { decrease: with_input(pair.decrease, p), ..pair },
    }
}

/// The controls after the state that `action` drives is set to `p`: each control
/// changes exactly when the action drives it.
pub open spec fn with_action(c: Controls, action: BooleanAction, p: bool) -> Controls {
    Controls {
        shift: if action == BooleanAction::Shift { p } else { c.shift },
        control: if action == BooleanAction::Control { p } else { c.control },
        alt: if action == BooleanAction::Alt { p } else { c.alt },
        reset_position: if action == BooleanAction::ResetPosition { p } else { c.reset_position },
        reset_filters: if action == BooleanAction::ResetFilters { p } else { c.reset_filters },
        input_focused: if action == BooleanAction::InputFocused { p } else { c.input_focused },
        canvas_focused: if action == BooleanAction::CanvasFocused { p } else { c.canvas_focused },
        rotate_left: if action == BooleanAction::RotateLeft { p } else { c.rotate_left },
        rotate_right: if action == BooleanAction::RotateRight { p } else { c.rotate_right },
        reset_speeds: if action == BooleanAction::ResetSpeeds { p } else { c.reset_speeds },
        turn_left: if action == BooleanAction::TurnLeft { p } else { c.turn_left },
        turn_right: if action == BooleanAction::TurnRight { p } else { c.turn_right },
        turn_up: if action == BooleanAction::TurnUp { p } else { c.turn_up },
        turn_down: if action == BooleanAction::TurnDown { p } else { c.turn_down },
        walk_left: if action == BooleanAction::WalkLeft { p } else { c.walk_left },
        walk_right: if action == BooleanAction::WalkRight { p } else { c.walk_right },
        walk_forward: if action == BooleanAction::WalkForward { p } else { c.walk_forward },
        walk_backward: if action == BooleanAction::WalkBackward { p } else { c.walk_backward },
        walk_up: if action == BooleanAction::WalkUp { p } else { c.walk_up },
        walk_down: if action == BooleanAction::WalkDown { p } else { c.walk_down },
        screenshot: if action == BooleanAction::Screenshot { with_input(c.screenshot, p) } else { c.screenshot },
        esc: if action == BooleanAction::Esc { with_input(c.esc, p) } else { c.esc },
        space: if action == BooleanAction::Space { with_input(c.space, p) } else { c.space },
        mouse_click: if action == BooleanAction::MouseClick { with_input(c.mouse_click, p) } else { c.mouse_click },
        camera_zoom: match action {
            BooleanAction::CameraZoom(d) => with_flag(c.camera_zoom, d, p),
            _ => c.camera_zoom,
        },
        pixel_width: match action {
            BooleanAction::PixelWidth(d) => with_flag(c.pixel_width, d, p),
            _ => c.pixel_width,
        },
        scaling_method: match action {
            BooleanAction::ScalingMethod(d) => with_button(c.scaling_method, d, p),
            _ => c.scaling_method,
        },
        scaling_resolution_width: match action {
            BooleanAction::ScalingResolutionWidth(d) => with_button(c.scaling_resolution_width, d, p),
            _ => c.scaling_resolution_width,
        },
        scaling_resolution_height: match action {
            BooleanAction::ScalingResolutionHeight(d) => with_button(c.scaling_resolution_height, d, p),
            _ => c.scaling_resolution_height,
        },
        scaling_aspect_ratio_x: match action {
            BooleanAction::ScalingAspectRatioX(d) => with_button(c.scaling_aspect_ratio_x, d, p),
            _ => c.scaling_aspect_ratio_x,
        },
        scaling_aspect_ratio_y: match action {
            BooleanAction::ScalingAspectRatioY(d) => with_button(c.scaling_aspect_ratio_y, d, p),
            _ => c.scaling_aspect_ratio_y,
        },
        translation_speed: match action {
            BooleanAction::TranslationSpeed(d) => with_button(c.translation_speed, d, p),
            _ => c.translation_speed,
        },
        filter_speed: match action {
            BooleanAction::FilterSpeed(d) => with_button(c.filter_speed, d, p),
            _ => c.filter_speed,
        },
        next_camera_movement_mode: match action {
            BooleanAction::NextCameraMovementMode(d) => with_button(c.next_camera_movement_mode, d, p),
            _ => c.next_camera_movement_mode,
        },
        turn_speed: match action {
            BooleanAction::TurnSpeed(d) => with_button(c.turn_speed, d, p),
            _ => c.turn_speed,
        },
    }
}

/// `n` is `c` after the state that `action` drives is set to `p`: each control changes
/// exactly when the action drives it.
pub open spec fn action_applied(c: Controls, n: Controls, action: BooleanAction, p: bool) -> bool {
    &&& n.shift == if action == BooleanAction::Shift { p } else { c.shift }
    &&& n.control == if action == BooleanAction::Control { p } else { c.control }
    &&& n.alt == if action == BooleanAction::Alt { p } else { c.alt }
    &&& n.reset_position == if action == BooleanAction::ResetPosition { p } else { c.reset_position }
    &&& n.reset_filters == if action == BooleanAction::ResetFilters { p } else { c.reset_filters }
    &&& n.input_focused == if action == BooleanAction::InputFocused { p } else { c.input_focused }
    &&& n.canvas_focused == if action == BooleanAction::CanvasFocused { p } else { c.canvas_focused }
    &&& n.rotate_left == if action == BooleanAction::RotateLeft { p } else { c.rotate_left }
    &&& n.rotate_right == if action == BooleanAction::RotateRight { p } else { c.rotate_right }
    &&& n.reset_speeds == if action == BooleanAction::ResetSpeeds { p } else { c.reset_speeds }
    &&& n.turn_left == if action == BooleanAction::TurnLeft { p } else { c.turn_left }
    &&& n.turn_right == if action == BooleanAction::TurnRight { p } else { c.turn_right }
    &&& n.turn_up == if action == BooleanAction::TurnUp { p } else { c.turn_up }
    &&& n.turn_down == if action == BooleanAction::TurnDown { p } else { c.turn_down }
    &&& n.walk_left == if action == BooleanAction::WalkLeft { p } else { c.walk_left }
    &&& n.walk_right == if action == BooleanAction::WalkRight { p } else { c.walk_right }
    &&& n.walk_forward == if action == BooleanAction::WalkForward { p } else { c.walk_forward }
    &&& n.walk_backward == if action == BooleanAction::WalkBackward { p } else { c.walk_backward }
    &&& n.walk_up == if action == BooleanAction::WalkUp { p } else { c.walk_up }
    &&& n.walk_down == if action == BooleanAction::WalkDown { p } else { c.walk_down }
    &&& n.screenshot == if action == BooleanAction::Screenshot { with_input(c.screenshot, p) } else { c.screenshot }
    &&& n.esc == if action == BooleanAction::Esc { with_input(c.esc, p) } else { c.esc }
    &&& n.space == if action == BooleanAction::Space { with_input(c.space, p) } else { c.space }
    &&& n.mouse_click == if action == BooleanAction::MouseClick { with_input(c.mouse_click, p) } else { c.mouse_click }
    &&& n.camera_zoom == match action {
        BooleanAction::CameraZoom(d) => with_flag(c.camera_zoom, d, p),
        _ => c.camera_zoom,
    }
    &&& n.pixel_width == match action {
        BooleanAction::PixelWidth(d) => with_flag(c.pixel_width, d, p),
        _ => c.pixel_width,
    }
    &&& n.scaling_method == match action {
        BooleanAction::ScalingMethod(d) => with_button(c.scaling_method, d, p),
        _ => c.scaling_method,
    }
    &&& n.scaling_resolution_width == match action {
        BooleanAction::ScalingResolutionWidth(d) => with_button(c.scaling_resolution_width, d, p),
        _ => c.scaling_resolution_width,
    }
    &&& n.scaling_resolution_height == match action {
        BooleanAction::ScalingResolutionHeight(d) => with_button(c.scaling_resolution_height, d, p),
        _ => c.scaling_resolution_height,
    }
    &&& n.scaling_aspect_ratio_x == match action {
        BooleanAction::ScalingAspectRatioX(d) => with_button(c.scaling_aspect_ratio_x, d, p),
        _ => c.scaling_aspect_ratio_x,
    }
    &&& n.scaling_aspect_ratio_y == match action {
        BooleanAction::ScalingAspectRatioY(d) => with_button(c.scaling_aspect_ratio_y, d, p),
        _ => c.scaling_aspect_ratio_y,
    }
    &&& n.translation_speed == match action {
        BooleanAction::TranslationSpeed(d) => with_button(c.translation_speed, d, p),
        _ => c.translation_speed,
    }
    &&& n.filter_speed == match action {
        BooleanAction::FilterSpeed(d) => with_button(c.filter_speed, d, p),
        _ => c.filter_speed,
    }
    &&& n.next_camera_movement_mode == match action {
        BooleanAction::NextCameraMovementMode(d) => with_button(c.next_camera_movement_mode, d, p),
        _ => c.next_camera_movement_mode,
    }
    &&& n.turn_speed == match action {
        BooleanAction::TurnSpeed(d) => with_button(c.turn_speed, d, p),
        _ => c.turn_speed,
    }
}

/// A control state that meets the per-control description of an action is the state
/// that `with_action` computes.
pub proof fn lemma_action_applied(c: Controls, n: Controls, action: BooleanAction, p: bool)
    requires
        action_applied(c, n, action, p),
    ensures
        n == with_action(c, action, p),
{
    reveal(with_action);
}

/// Actions that drive a plain flag used for settings, modifiers and resets.
pub open spec fn drives_setting_flag(action: BooleanAction) -> bool {
    match action {
        BooleanAction::Shift | BooleanAction::Control | BooleanAction::Alt | BooleanAction::ResetPosition | BooleanAction::ResetFilters | BooleanAction::InputFocused | BooleanAction::CanvasFocused | BooleanAction::RotateLeft | BooleanAction::RotateRight | BooleanAction::ResetSpeeds => true,
        _ => false,
    }
}

/// Actions that drive a plain flag of camera motion.
pub open spec fn drives_motion_flag(action: BooleanAction) -> bool {
    match action {
        BooleanAction::TurnLeft | BooleanAction::TurnRight | BooleanAction::TurnUp | BooleanAction::TurnDown | BooleanAction::WalkLeft | BooleanAction::WalkRight | BooleanAction::WalkForward | BooleanAction::WalkBackward | BooleanAction::WalkUp | BooleanAction::WalkDown => true,
        _ => false,
    }
}

/// Actions that drive a single button, or one flag of a pair.
pub open spec fn drives_single_button(action: BooleanAction) -> bool {
    match action {
        BooleanAction::Screenshot | BooleanAction::Esc | BooleanAction::Space | BooleanAction::MouseClick | BooleanAction::CameraZoom(_) | BooleanAction::PixelWidth(_) => true,
        _ => false,
    }
}

fn set_shift(input: &mut Input, pressed: bool)
    ensures
        action_applied(old(input).controls(), final(input).controls(), BooleanAction::Shift, pressed),
        final(input).active_pressed_actions@ == old(input).active_pressed_actions@,
        final(input).others_equal(&*old(input)),
{
    input.shift = pressed;
}

fn set_control(input: &mut Input, pressed: bool)
    ensures
        action_applied(old(input).controls(), final(input).controls(), BooleanAction::Control, pressed),
        final(input).active_pressed_actions@ == old(input).active_pressed_actions@,
        final(input).others_equal(&*old(input)),
{
    input.control = pressed;
}

fn set_alt(input: &mut Input, pressed: bool)
    ensures
        action_applied(old(input).controls(), final(input).controls(), BooleanAction::Alt, pressed),
        final(input).active_pressed_actions@ == old(input).active_pressed_actions@,
        final(input).others_equal(&*old(input)),
{
    input.alt = pressed;
}

fn set_reset_position(input: &mut Input, pressed: bool)
    ensures
        action_applied(old(input).controls(), final(input).controls(), BooleanAction::ResetPosition, pressed),
        final(input).active_pressed_actions@ == old(input).active_pressed_actions@,
        final(input).others_equal(&*old(input)),
{
    input.reset_position = pressed;
}

fn set_reset_filters(input: &mut Input, pressed: bool)
    ensures
        action_applied(old(input).controls(), final(input).controls(), BooleanAction::ResetFilters, pressed),
        final(input).active_pressed_actions@ == old(input).active_pressed_actions@,
        final(input).others_equal(&*old(input)),
{
    input.reset_filters = pressed;
}

fn set_input_focused(input: &mut Input, pressed: bool)
    ensures
        action_applied(old(input).controls(), final(input).controls(), BooleanAction::InputFocused, pressed),
        final(input).active_pressed_actions@ == old(input).active_pressed_actions@,
        final(input).others_equal(&*old(input)),
{
    input.input_focused = pressed;
}

fn set_canvas_focused(input: &mut Input, pressed: bool)
    ensures
        action_applied(old(input).controls(), final(input).controls(), BooleanAction::CanvasFocused, pressed),
        final(input).active_pressed_actions@ == old(input).active_pressed_actions@,
        final(input).others_equal(&*old(input)),
{
    input.canvas_focused = pressed;
}

fn set_rotate_left(input: &mut Input, pressed: bool)
    ensures
        action_applied(old(input).controls(), final(input).controls(), BooleanAction::RotateLeft, pressed),
        final(input).active_pressed_actions@ == old(input).active_pressed_actions@,
        final(input).others_equal(&*old(input)),
{
    input.rotate_left = pressed;
}

fn set_rotate_right(input: &mut Input, pressed: bool)
    ensures
        action_applied(old(input).controls(), final(input).controls(), BooleanAction::RotateRight, pressed),
        final(input).active_pressed_actions@ == old(input).active_pressed_actions@,
        final(input).others_equal(&*old(input)),
{
    input.rotate_right = pressed;
}

fn set_reset_speeds(input: &mut Input, pressed: bool)
    ensures
        action_applied(old(input).controls(), final(input).controls(), BooleanAction::ResetSpeeds, pressed),
        final(input).active_pressed_actions@ == old(input).active_pressed_actions@,
        final(input).others_equal(&*old(input)),
{
    input.reset_speeds = pressed;
}

fn set_turn_left(input: &mut Input, pressed: bool)
    ensures
        action_applied(old(input).controls(), final(input).controls(), BooleanAction::TurnLeft, pressed),
        final(input).active_pressed_actions@ == old(input).active_pressed_actions@,
        final(input).others_equal(&*old(input)),
{
    input.turn_left = pressed;
}

fn set_turn_right(input: &mut Input, pressed: bool)
    ensures
        action_applied(old(input).controls(), final(input).controls(), BooleanAction::TurnRight, pressed),
        final(input).active_pressed_actions@ == old(input).active_pressed_actions@,
        final(input).others_equal(&*old(input)),
{
    input.turn_right = pressed;
}

fn set_turn_up(input: &mut Input, pressed: bool)
    ensures
        action_applied(old(input).controls(), final(input).controls(), BooleanAction::TurnUp, pressed),
        final(input).active_pressed_actions@ == old(input).active_pressed_actions@,
        final(input).others_equal(&*old(input)),
{
    input.turn_up = pressed;
}

fn set_turn_down(input: &mut Input, pressed: bool)
    ensures
        action_applied(old(input).controls(), final(input).controls(), BooleanAction::TurnDown, pressed),
        final(input).active_pressed_actions@ == old(input).active_pressed_actions@,
        final(input).others_equal(&*old(input)),
{
    input.turn_down = pressed;
}

fn set_walk_left(input: &mut Input, pressed: bool)
    ensures
        action_applied(old(input).controls(), final(input).controls(), BooleanAction::WalkLeft, pressed),
        final(input).active_pressed_actions@ == old(input).active_pressed_actions@,
        final(input).others_equal(&*old(input)),
{
    input.walk_left = pressed;
}

fn set_walk_right(input: &mut Input, pressed: bool)
    ensures
        action_applied(old(input).controls(), final(input).controls(), BooleanAction::WalkRight, pressed),
        final(input).active_pressed_actions@ == old(input).active_pressed_actions@,
        final(input).others_equal(&*old(input)),
{
    input.walk_right = pressed;
}

fn set_walk_forward(input: &mut Input, pressed: bool)
    ensures
        action_applied(old(input).controls(), final(input).controls(), BooleanAction::WalkForward, pressed),
        final(input).active_pressed_actions@ == old(input).active_pressed_actions@,
        final(input).others_equal(&*old(input)),
{
    input.walk_forward = pressed;
}

fn set_walk_backward(input: &mut Input, pressed: bool)
    ensures
        action_applied(old(input).controls(), final(input).controls(), BooleanAction::WalkBackward, pressed),
        final(input).active_pressed_actions@ == old(input).active_pressed_actions@,
        final(input).others_equal(&*old(input)),
{
    input.walk_backward = pressed;
}

fn set_walk_up(input: &mut Input, pressed: bool)
    ensures
        action_applied(old(input).controls(), final(input).controls(), BooleanAction::WalkUp, pressed),
        final(input).active_pressed_actions@ == old(input).active_pressed_actions@,
        final(input).others_equal(&*old(input)),
{
    input.walk_up = pressed;
}

fn set_walk_down(input: &mut Input, pressed: bool)
    ensures
        action_applied(old(input).controls(), final(input).controls(), BooleanAction::WalkDown, pressed),
        final(input).active_pressed_actions@ == old(input).active_pressed_actions@,
        final(input).others_equal(&*old(input)),
{
    input.walk_down = pressed;
}

fn set_screenshot(input: &mut Input, pressed: bool)
    ensures
        action_applied(old(input).controls(), final(input).controls(), BooleanAction::Screenshot, pressed),
        final(input).active_pressed_actions@ == old(input).active_pressed_actions@,
        final(input).others_equal(&*old(input)),
{
    input.screenshot.input = pressed;
}

fn set_esc(input: &mut Input, pressed: bool)
    ensures
        action_applied(old(input).controls(), final(input).controls(), BooleanAction::Esc, pressed),
        final(input).active_pressed_actions@ == old(input).active_pressed_actions@,
        final(input).others_equal(&*old(input)),
{
    input.esc.input = pressed;
}

fn set_space(input: &mut Input, pressed: bool)
    ensures
        action_applied(old(input).controls(), final(input).controls(), BooleanAction::Space, pressed),
        final(input).active_pressed_actions@ == old(input).active_pressed_actions@,
        final(input).others_equal(&*old(input)),
{
    input.space.input = pressed;
}

fn set_mouse_click(input: &mut Input, pressed: bool)
    ensures
        action_applied(old(input).controls(), final(input).controls(), BooleanAction::MouseClick, pressed),
        final(input).active_pressed_actions@ == old(input).active_pressed_actions@,
        final(input).others_equal(&*old(input)),
{
    input.mouse_click.input = pressed;
}

fn set_camera_zoom(input: &mut Input, d: Boolean2DAction, pressed: bool)
    ensures
        action_applied(old(input).controls(), final(input).controls(), BooleanAction::CameraZoom(d), pressed),
        final(input).active_pressed_actions@ == old(input).active_pressed_actions@,
        final(input).others_equal(&*old(input)),
{
    match d {
        Boolean2DAction::Increase => input.camera_zoom.increase = pressed,
        Boolean2DAction::Decrease => input.camera_zoom.decrease = pressed,
    }
}

fn set_pixel_width(input: &mut Input, d: Boolean2DAction, pressed: bool)
    ensures
        action_applied(old(input).controls(), final(input).controls(), BooleanAction::PixelWidth(d), pressed),
        final(input).active_pressed_actions@ == old(input).active_pressed_actions@,
        final(input).others_equal(&*old(input)),
{
    match d {
        Boolean2DAction::Increase => input.pixel_width.increase = pressed,
        Boolean2DAction::Decrease => input.pixel_width.decrease = pressed,
    }
}

fn set_scaling_method(input: &mut Input, d: Boolean2DAction, pressed: bool)
    ensures
        action_applied(old(input).controls(), final(input).controls(), BooleanAction::ScalingMethod(d), pressed),
        final(input).active_pressed_actions@ == old(input).active_pressed_actions@,
        final(input).others_equal(&*old(input)),
{
    match d {
        Boolean2DAction::Increase => input.scaling_method.increase.input = pressed,
        Boolean2DAction::Decrease => input.scaling_method.decrease.input = pressed,
    }
}

fn set_scaling_resolution_width(input: &mut Input, d: Boolean2DAction, pressed: bool)
    ensures
        action_applied(old(input).controls(), final(input).controls(), BooleanAction::ScalingResolutionWidth(d), pressed),
        final(input).active_pressed_actions@ == old(input).active_pressed_actions@,
        final(input).others_equal(&*old(input)),
{
    match d {
        Boolean2DAction::Increase => input.scaling_resolution_width.increase.input = pressed,
        Boolean2DAction::Decrease => input.scaling_resolution_width.decrease.input = pressed,
    }
}

fn set_scaling_resolution_height(input: &mut Input, d: Boolean2DAction, pressed: bool)
    ensures
        action_applied(old(input).controls(), final(input).controls(), BooleanAction::ScalingResolutionHeight(d), pressed),
        final(input).active_pressed_actions@ == old(input).active_pressed_actions@,
        final(input).others_equal(&*old(input)),
{
    match d {
        Boolean2DAction::Increase => input.scaling_resolution_height.increase.input = pressed,
        Boolean2DAction::Decrease => input.scaling_resolution_height.decrease.input = pressed,
    }
}

fn set_scaling_aspect_ratio_x(input: &mut Input, d: Boolean2DAction, pressed: bool)
    ensures
        action_applied(old(input).controls(), final(input).controls(), BooleanAction::ScalingAspectRatioX(d), pressed),
        final(input).active_pressed_actions@ == old(input).active_pressed_actions@,
        final(input).others_equal(&*old(input)),
{
    match d {
        Boolean2DAction::Increase => input.scaling_aspect_ratio_x.increase.input = pressed,
        Boolean2DAction::Decrease => input.scaling_aspect_ratio_x.decrease.input = pressed,
    }
}

fn set_scaling_aspect_ratio_y(input: &mut Input, d: Boolean2DAction, pressed: bool)
    ensures
        action_applied(old(input).controls(), final(input).controls(), BooleanAction::ScalingAspectRatioY(d), pressed),
        final(input).active_pressed_actions@ == old(input).active_pressed_actions@,
        final(input).others_equal(&*old(input)),
{
    match d {
        Boolean2DAction::Increase => input.scaling_aspect_ratio_y.increase.input = pressed,
        Boolean2DAction::Decrease => input.scaling_aspect_ratio_y.decrease.input = pressed,
    }
}

fn set_translation_speed(input: &mut Input, d: Boolean2DAction, pressed: bool)
    ensures
        action_applied(old(input).controls(), final(input).controls(), BooleanAction::TranslationSpeed(d), pressed),
        final(input).active_pressed_actions@ == old(input).active_pressed_actions@,
        final(input).others_equal(&*old(input)),
{
    match d {
        Boolean2DAction::Increase => input.translation_speed.increase.input = pressed,
        Boolean2DAction::Decrease => input.translation_speed.decrease.input = pressed,
    }
}

fn set_filter_speed(input: &mut Input, d: Boolean2DAction, pressed: bool)
    ensures
        action_applied(old(input).controls(), final(input).controls(), BooleanAction::FilterSpeed(d), pressed),
        final(input).active_pressed_actions@ == old(input).active_pressed_actions@,
        final(input).others_equal(&*old(input)),
{
    match d {
        Boolean2DAction::Increase => input.filter_speed.increase.input = pressed,
        Boolean2DAction::Decrease => input.filter_speed.decrease.input = pressed,
    }
}

fn set_next_camera_movement_mode(input: &mut Input, d: Boolean2DAction, pressed: bool)
    ensures
        action_applied(old(input).controls(), final(input).controls(), BooleanAction::NextCameraMovementMode(d), pressed),
        final(input).active_pressed_actions@ == old(input).active_pressed_actions@,
        final(input).others_equal(&*old(input)),
{
    match d {
        Boolean2DAction::Increase => input.next_camera_movement_mode.increase.input = pressed,
        Boolean2DAction::Decrease => input.next_camera_movement_mode.decrease.input = pressed,
    }
}

fn set_turn_speed(input: &mut Input, d: Boolean2DAction, pressed: bool)
    ensures
        action_applied(old(input).controls(), final(input).controls(), BooleanAction::TurnSpeed(d), pressed),
        final(input).active_pressed_actions@ == old(input).active_pressed_actions@,
        final(input).others_equal(&*old(input)),
{
    match d {
        Boolean2DAction::Increase => input.turn_speed.increase.input = pressed,
        Boolean2DAction::Decrease => input.turn_speed.decrease.input = pressed,
    }
}

fn handle_setting_flag_action(input: &mut Input, action: BooleanAction, pressed: bool)
    requires
        drives_setting_flag(action),
    ensures
        action_applied(old(input).controls(), final(input).controls(), action, pressed),
        final(input).active_pressed_actions@ == old(input).active_pressed_actions@,
        final(input).others_equal(&*old(input)),
{
    match action {
        BooleanAction::Shift => set_shift(input, pressed),
        BooleanAction::Control => set_control(input, pressed),
        BooleanAction::Alt => set_alt(input, pressed),
        BooleanAction::ResetPosition => set_reset_position(input, pressed),
        BooleanAction::ResetFilters => set_reset_filters(input, pressed),
        BooleanAction::InputFocused => set_input_focused(input, pressed),
        BooleanAction::CanvasFocused => set_canvas_focused(input, pressed),
        BooleanAction::RotateLeft => set_rotate_left(input, pressed),
        BooleanAction::RotateRight => set_rotate_right(input, pressed),
        BooleanAction::ResetSpeeds => set_reset_speeds(input, pressed),
        _ => {
            assert(false);
        },
    }
}

fn handle_motion_flag_action(input: &mut Input, action: BooleanAction, pressed: bool)
    requires
        drives_motion_flag(action),
    ensures
        action_applied(old(input).controls(), final(input).controls(), action, pressed),
        final(input).active_pressed_actions@ == old(input).active_pressed_actions@,
        final(input).others_equal(&*old(input)),
{
    match action {
        BooleanAction::TurnLeft => set_turn_left(input, pressed),
        BooleanAction::TurnRight => set_turn_right(input, pressed),
        BooleanAction::TurnUp => set_turn_up(input, pressed),
        BooleanAction::TurnDown => set_turn_down(input, pressed),
        BooleanAction::WalkLeft => set_walk_left(input, pressed),
        BooleanAction::WalkRight => set_walk_right(input, pressed),
        BooleanAction::WalkForward => set_walk_forward(input, pressed),
        BooleanAction::WalkBackward => set_walk_backward(input, pressed),
        BooleanAction::WalkUp => set_walk_up(input, pressed),
        BooleanAction::WalkDown => set_walk_down(input, pressed),
        _ => {
            assert(false);
        },
    }
}

fn handle_single_button_action(input: &mut Input, action: BooleanAction, pressed: bool)
    requires
        drives_single_button(action),
    ensures
        action_applied(old(input).controls(), final(input).controls(), action, pressed),
        final(input).active_pressed_actions@ == old(input).active_pressed_actions@,
        final(input).others_equal(&*old(input)),
{
    match action {
        BooleanAction::Screenshot => set_screenshot(input, pressed),
        BooleanAction::Esc => set_esc(input, pressed),
        BooleanAction::Space => set_space(input, pressed),
        BooleanAction::MouseClick => set_mouse_click(input, pressed),
        BooleanAction::CameraZoom(d) => set_camera_zoom(input, d, pressed),
        BooleanAction::PixelWidth(d) => set_pixel_width(input, d, pressed),
        _ => {
            assert(false);
        },
    }
}

fn handle_pair_action(input: &mut Input, action: BooleanAction, pressed: bool)
    requires
        !drives_setting_flag(action) && !drives_motion_flag(action) && !drives_single_button(action),
    ensures
        action_applied(old(input).controls(), final(input).controls(), action, pressed),
        final(input).active_pressed_actions@ == old(input).active_pressed_actions@,
        final(input).others_equal(&*old(input)),
{
    match action {
        BooleanAction::ScalingMethod(d) => set_scaling_method(input, d, pressed),
        BooleanAction::ScalingResolutionWidth(d) => set_scaling_resolution_width(input, d, pressed),
        BooleanAction::ScalingResolutionHeight(d) => set_scaling_resolution_height(input, d, pressed),
        BooleanAction::ScalingAspectRatioX(d) => set_scaling_aspect_ratio_x(input, d, pressed),
        BooleanAction::ScalingAspectRatioY(d) => set_scaling_aspect_ratio_y(input, d, pressed),
        BooleanAction::TranslationSpeed(d) => set_translation_speed(input, d, pressed),
        BooleanAction::FilterSpeed(d) => set_filter_speed(input, d, pressed),
        BooleanAction::NextCameraMovementMode(d) => set_next_camera_movement_mode(input, d, pressed),
        BooleanAction::TurnSpeed(d) => set_turn_speed(input, d, pressed),
        _ => {
            assert(false);
        },
    }
}

/// Sets the state that `action` drives.
pub fn handle_action(input: &mut Input, action: BooleanAction, pressed: Pressed)
    ensures
        final(input).controls() == with_action(old(input).controls(), action, pressed == Pressed::Yes),
        final(input).active_pressed_actions@ == old(input).active_pressed_actions@,
        final(input).others_equal(&*old(input)),
{
    let pressed = match pressed {
        Pressed::Yes => true,
        Pressed::No => false,
    };
    let ghost before = input.controls();
    match action {
        BooleanAction::Shift | BooleanAction::Control | BooleanAction::Alt | BooleanAction::ResetPosition | BooleanAction::ResetFilters | BooleanAction::InputFocused | BooleanAction::CanvasFocused | BooleanAction::RotateLeft | BooleanAction::RotateRight | BooleanAction::ResetSpeeds => {
            handle_setting_flag_action(input, action, pressed)
        },
        BooleanAction::TurnLeft | BooleanAction::TurnRight | BooleanAction::TurnUp | BooleanAction::TurnDown | BooleanAction::WalkLeft | BooleanAction::WalkRight | BooleanAction::WalkForward | BooleanAction::WalkBackward | BooleanAction::WalkUp | BooleanAction::WalkDown => {
            handle_motion_flag_action(input, action, pressed)
        },
        BooleanAction::Screenshot | BooleanAction::Esc | BooleanAction::Space | BooleanAction::MouseClick | BooleanAction::CameraZoom(_) | BooleanAction::PixelWidth(_) => {
            handle_single_button_action(input, action, pressed)
        },
        _ => handle_pair_action(input, action, pressed),
    }
    proof {
        lemma_action_applied(before, input.controls(), action, pressed);
    }
}

/// The held hotkeys that a modifier turns into others when it goes down: for each, the
/// modified hotkey to press and the index and action of the one to release.
pub open spec fn modify_spec(active: Seq<(Seq<char>, BooleanAction)>, code: Seq<char>) -> (
    Seq<(Seq<char>, BooleanAction)>,
    Seq<(usize, BooleanAction)>,
)
    decreases active.len(),
{
    if active.len() == 0 {
        (Seq::empty(), Seq::empty())
    } else {
        let (adds, dels) = modify_spec(active.drop_last(), code);
        let i = active.len() - 1;
        let k = code + active[i].0;
        match key_action(k) {
            Some(m) => (adds.push((k, m)), dels.push((i as usize, active[i].1))),
            None => (adds, dels),
        }
    }
}

/// The held hotkeys that a modifier gives back when it goes up: every hotkey whose key
/// code starts with the modifier's prefix is released, and the key code without the
/// prefix is pressed when it is bound.
pub open spec fn unmodify_spec(active: Seq<(Seq<char>, BooleanAction)>, code: Seq<char>) -> (
    Seq<(Seq<char>, BooleanAction)>,
    Seq<(usize, BooleanAction)>,
)
    decreases active.len(),
{
    if active.len() == 0 {
        (Seq::empty(), Seq::empty())
    } else {
        let (adds, dels) = unmodify_spec(active.drop_last(), code);
        let i = active.len() - 1;
        if !has_prefix(active[i].0, code) {
            (adds, dels)
        } else {
            let dels2 = dels.push((i as usize, active[i].1));
            let u = remove_all(active[i].0, code);
            match key_action(u) {
                Some(m) => (adds.push((u, m)), dels2),
                None => (adds, dels2),
            }
        }
    }
}

pub fn modify_active_actions(active_actions: &[KeyCodeBooleanAction], modifier_code: &str) -> (r: (
    Vec<KeyCodeBooleanAction>,
    Vec<(usize, BooleanAction)>,
))
    ensures
        (actions_view(r.0@), r.1@) == modify_spec(actions_view(active_actions@), modifier_code@),
{
    let mut to_delete: Vec<(usize, BooleanAction)> = Vec::new();
    let mut to_add: Vec<KeyCodeBooleanAction> = Vec::new();
    let ghost all = actions_view(active_actions@);
    let mut i: usize = 0;
    while i < active_actions.len()
        invariant
            all == actions_view(active_actions@),
            0 <= i <= active_actions@.len(),
            (actions_view(to_add@), to_delete@) == modify_spec(all.take(i as int), modifier_code@),
        decreases active_actions@.len() - i,
    {
        let keycode = active_actions[i].0.as_str();
        let action = active_actions[i].1;
        let modified_keycode = concat(modifier_code, keycode);
        proof {
            assert(all.take(i + 1).drop_last() =~= all.take(i as int));
            assert(all.take(i + 1)[i as int] == (keycode@, action));
        }
        match to_boolean_action(&modified_keycode) {
            None => {},
            Some(modified_action) => {
                let ghost prev = to_add@;
                to_delete.push((i, action));
                to_add.push((modified_keycode, modified_action));
                proof {
                    assert(to_add@ == prev.push((modified_keycode, modified_action)));
                    assert(actions_view(to_add@) =~= actions_view(prev).push(
                        (modifier_code@ + keycode@, modified_action),
                    ));
                }
            },
        }
        i = i + 1;
    }
    proof {
        assert(all.take(active_actions@.len() as int) =~= all);
    }
    (to_add, to_delete)
}

pub fn unmodify_active_actions(active_actions: &[KeyCodeBooleanAction], modifier_code: &str) -> (r: (
    Vec<KeyCodeBooleanAction>,
    Vec<(usize, BooleanAction)>,
))
    requires
        modifier_code@.len() > 0,
    ensures
        (actions_view(r.0@), r.1@) == unmodify_spec(actions_view(active_actions@), modifier_code@),
{
    let mut to_delete: Vec<(usize, BooleanAction)> = Vec::new();
    let mut to_add: Vec<KeyCodeBooleanAction> = Vec::new();
    let ghost all = actions_view(active_actions@);
    let mut i: usize = 0;
    while i < active_actions.len()
        invariant
            all == actions_view(active_actions@),
            modifier_code@.len() > 0,
            0 <= i <= active_actions@.len(),
            (actions_view(to_add@), to_delete@) == unmodify_spec(all.take(i as int), modifier_code@),
        decreases active_actions@.len() - i,
    {
        let keycode = active_actions[i].0.as_str();
        let action = active_actions[i].1;
        proof {
            assert(all.take(i + 1).drop_last() =~= all.take(i as int));
            assert(all.take(i + 1)[i as int] == (keycode@, action));
        }
        if starts_with(keycode, modifier_code) {
            to_delete.push((i, action));
            let unmodified_keycode = remove_all_occurrences(keycode, modifier_code);
            match to_boolean_action(&unmodified_keycode) {
                None => {},
                Some(unmodified_action) => {
                    let ghost prev = to_add@;
                    to_add.push((unmodified_keycode, unmodified_action));
                    proof {
                        assert(to_add@ == prev.push((unmodified_keycode, unmodified_action)));
                        assert(actions_view(to_add@) =~= actions_view(prev).push(
                            (remove_all(keycode@, modifier_code@), unmodified_action),
                        ));
                    }
                },
            }
        }
        i = i + 1;
    }
    proof {
        assert(all.take(active_actions@.len() as int) =~= all);
    }
    (to_add, to_delete)
}

/// The controls after the hotkeys of `dels` are released, in order.
pub open spec fn release_all(c: Controls, dels: Seq<(usize, BooleanAction)>) -> Controls
    decreases dels.len(),
{
    if dels.len() == 0 {
        c
    } else {
        with_action(release_all(c, dels.drop_last()), dels.last().1, false)
    }
}

/// The controls after the hotkeys of `adds` are pressed, in order.
pub open spec fn press_all(c: Controls, adds: Seq<(Seq<char>, BooleanAction)>) -> Controls
    decreases adds.len(),
{
    if adds.len() == 0 {
        c
    } else {
        with_action(press_all(c, adds.drop_last()), adds.last().1, true)
    }
}

/// The list after the entries at the indices of `dels` are removed one after another,
/// each index taken in the list as the previous removals left it.
pub open spec fn remove_indices<T>(active: Seq<T>, dels: Seq<(usize, BooleanAction)>) -> Seq<T>
    decreases dels.len(),
{
    if dels.len() == 0 {
        active
    } else {
        remove_indices(active, dels.drop_last()).remove(dels.last().0 as int)
    }
}

/// Each removal of `dels` falls inside the list that the previous ones left.
pub open spec fn removals_in_bounds(len: nat, dels: Seq<(usize, BooleanAction)>) -> bool {
    forall|k: int| 0 <= k < dels.len() ==> (#[trigger] dels[k]).0 < len - k
}

/// Releases the hotkey at position `i` of the held ones and stops holding it.
fn release_held(input: &mut Input, i: usize, action: BooleanAction)
    requires
        i < old(input).active_pressed_actions@.len(),
    ensures
        final(input).controls() == with_action(old(input).controls(), action, false),
        final(input).active_view() == old(input).active_view().remove(i as int),
        final(input).active_pressed_actions@.len() == old(input).active_pressed_actions@.len() - 1,
        final(input).others_equal(&*old(input)),
{
    let ghost before = input.active_pressed_actions@;
    handle_action(input, action, Pressed::No);
    input.active_pressed_actions.remove(i);
    proof {
        assert(actions_view(before.remove(i as int)) =~= actions_view(before).remove(i as int));
    }
}

/// Presses the hotkey `key` with action `action` and holds it.
fn press_held(input: &mut Input, key: String, action: BooleanAction)
    ensures
        final(input).controls() == with_action(old(input).controls(), action, true),
        final(input).active_view() == old(input).active_view().push((key@, action)),
        final(input).others_equal(&*old(input)),
{
    let ghost before = input.active_pressed_actions@;
    let ghost key_view = key@;
    handle_action(input, action, Pressed::Yes);
    input.active_pressed_actions.push((key, action));
    proof {
        assert(actions_view(before.push((key, action))) =~= actions_view(before).push((key_view, action)));
    }
}

/// Releases the hotkeys of `to_delete` and removes them from the held ones, then presses
/// the hotkeys of `to_add` and holds them.
pub fn resolve_modifications(
    input: &mut Input,
    to_add: Vec<KeyCodeBooleanAction>,
    to_delete: Vec<(usize, BooleanAction)>,
)
    requires
        removals_in_bounds(old(input).active_pressed_actions@.len(), to_delete@),
    ensures
        final(input).controls() == press_all(
            release_all(old(input).controls(), to_delete@),
            actions_view(to_add@),
        ),
        final(input).active_view() == remove_indices(old(input).active_view(), to_delete@)
            + actions_view(to_add@),
        final(input).others_equal(&*old(input)),
{
    let ghost c0 = old(input).controls();
    let ghost a0 = old(input).active_view();
    let ghost n0 = old(input).active_pressed_actions@.len();
    let mut k: usize = 0;
    while k < to_delete.len()
        invariant
            0 <= k <= to_delete@.len(),
            removals_in_bounds(n0, to_delete@),
            input.active_pressed_actions@.len() == n0 - k,
            input.controls() == release_all(c0, to_delete@.take(k as int)),
            input.active_view() == remove_indices(a0, to_delete@.take(k as int)),
            input.others_equal(&*old(input)),
        decreases to_delete@.len() - k,
    {
        let (i, removed_action) = to_delete[k];
        proof {
            assert(to_delete@.take(k + 1).drop_last() =~= to_delete@.take(k as int));
            assert(to_delete@[k as int] == (i, removed_action));
        }
        release_held(input, i, removed_action);
        k = k + 1;
    }
    proof {
        assert(to_delete@.take(to_delete@.len() as int) =~= to_delete@);
    }
    let ghost c1 = input.controls();
    let ghost a1 = input.active_view();
    let mut k: usize = 0;
    while k < to_add.len()
        invariant
            0 <= k <= to_add@.len(),
            input.controls() == press_all(c1, actions_view(to_add@).take(k as int)),
            input.active_view() == a1 + actions_view(to_add@).take(k as int),
            input.others_equal(&*old(input)),
        decreases to_add@.len() - k,
    {
        let modified_keycode = to_add[k].0.clone();
        let modified_action = to_add[k].1;
        proof {
            assert(actions_view(to_add@).take(k + 1).drop_last() =~= actions_view(to_add@).take(
                k as int,
            ));
            assert(actions_view(to_add@).take(k + 1).last() == (modified_keycode@, modified_action));
            assert(actions_view(to_add@)[k as int] == (modified_keycode@, modified_action));
        }
        let ghost key_view = modified_keycode@;
        press_held(input, modified_keycode, modified_action);
        proof {
            assert(a1 + actions_view(to_add@).take(k + 1) =~= (a1 + actions_view(to_add@).take(
                k as int,
            )).push((key_view, modified_action)));
        }
        k = k + 1;
    }
    proof {
        assert(actions_view(to_add@).take(to_add@.len() as int) =~= actions_view(to_add@));
    }
}

/// The position of the first held hotkey with action `action`.
pub open spec fn first_with_action(active: Seq<(Seq<char>, BooleanAction)>, action: BooleanAction) -> int {
    choose|i: int|
        0 <= i < active.len() && active[i].1 == action && forall|j: int|
            0 <= j < i ==> active[j].1 != action
}

/// Some held hotkey has action `action`.
pub open spec fn holds_action(active: Seq<(Seq<char>, BooleanAction)>, action: BooleanAction) -> bool {
    exists|i: int| 0 <= i < active.len() && active[i].1 == action
}

/// The held hotkeys without the first one with action `action`.
pub open spec fn remove_first(active: Seq<(Seq<char>, BooleanAction)>, action: BooleanAction) -> Seq<
    (Seq<char>, BooleanAction),
> {
    if holds_action(active, action) {
        active.remove(first_with_action(active, action))
    } else {
        active
    }
}

/// Stops holding the first hotkey with action `action`, if any.
pub fn remove_action(input: &mut Input, action: BooleanAction)
    ensures
        final(input).active_view() == remove_first(old(input).active_view(), action),
        final(input).controls() == old(input).controls(),
        final(input).others_equal(&*old(input)),
{
    let ghost all = input.active_view();
    let mut index: Option<usize> = None;
    let mut i: usize = 0;
    while i < input.active_pressed_actions.len()
        invariant
            all == input.active_view(),
            all.len() == input.active_pressed_actions@.len(),
            0 <= i <= all.len(),
            index is None ==> forall|j: int| 0 <= j < i ==> all[j].1 != action,
            index is Some ==> i == all.len(),
            index matches Some(k) ==> k < all.len() && all[k as int].1 == action && forall|j: int|
                0 <= j < k ==> all[j].1 != action,
        decreases all.len() - i,
    {
        if input.active_pressed_actions[i].1 == action {
            proof {
                assert(all[i as int].1 == input.active_pressed_actions@[i as int].1);
            }
            index = Some(i);
            i = input.active_pressed_actions.len();
        } else {
            proof {
                assert(all[i as int].1 == input.active_pressed_actions@[i as int].1);
            }
            i = i + 1;
        }
    }
    match index {
        Some(i) => {
            proof {
                let k = first_with_action(all, action);
                assert(holds_action(all, action));
                if k < i {
                    assert(all[k].1 != action);
                } else if k > i {
                    assert(all[i as int].1 == action);
                }
            }
            let ghost before = input.active_pressed_actions@;
            input.active_pressed_actions.remove(i);
            proof {
                assert(actions_view(before.remove(i as int)) =~= actions_view(before).remove(i as int));
            }
        },
        None => {
            proof {
                assert(!holds_action(all, action));
            }
        },
    }
}

/// What a modifier going down or up does to the controls and the held hotkeys.
pub open spec fn modifier_changes(active: Seq<(Seq<char>, BooleanAction)>, modifier: BooleanAction, pressed: bool) -> (
    Seq<(Seq<char>, BooleanAction)>,
    Seq<(usize, BooleanAction)>,
) {
    if pressed {
        modify_spec(active, modifier_code(modifier))
    } else {
        unmodify_spec(active, modifier_code(modifier))
    }
}

/// The controls and held hotkeys after a modifier goes down or up.
pub open spec fn react_spec(c: Controls, active: Seq<(Seq<char>, BooleanAction)>, modifier: BooleanAction, pressed: bool) -> (
    Controls,
    Seq<(Seq<char>, BooleanAction)>,
) {
    let (adds, dels) = modifier_changes(active, modifier, pressed);
    (press_all(release_all(c, dels), adds), remove_indices(active, dels) + adds)
}

/// The modifier's changes stay inside the held hotkeys (otherwise a removal is out of
/// bounds).
pub open spec fn react_in_bounds(active: Seq<(Seq<char>, BooleanAction)>, modifier: BooleanAction, pressed: bool) -> bool {
    removals_in_bounds(active.len(), modifier_changes(active, modifier, pressed).1)
}

/// Turns the held hotkeys into their modified or unmodified forms when a modifier goes
/// down or up.
pub fn react_to_modifier(input: &mut Input, modifier: BooleanAction, pressed: Pressed)
    requires
        is_modifier(modifier),
        react_in_bounds(old(input).active_view(), modifier, pressed == Pressed::Yes),
    ensures
        (final(input).controls(), final(input).active_view()) == react_spec(
            old(input).controls(),
            old(input).active_view(),
            modifier,
            pressed == Pressed::Yes,
        ),
        final(input).others_equal(&*old(input)),
{
    let modifier_code = get_modifier_code(modifier);
    proof {
        lemma_modifier_code_nonempty(modifier);
    }
    let (to_add, to_delete) = match pressed {
        Pressed::Yes => modify_active_actions(input.active_pressed_actions.as_slice(), modifier_code),
        Pressed::No => unmodify_active_actions(input.active_pressed_actions.as_slice(), modifier_code),
    };
    resolve_modifications(input, to_add, to_delete);
}

/// Reacts to a modifier going down or up; other actions change nothing here.
pub fn process_modifiers(input: &mut Input, action: BooleanAction, pressed: Pressed)
    requires
        is_modifier(action) ==> react_in_bounds(old(input).active_view(), action, pressed == Pressed::Yes),
    ensures
        is_modifier(action) ==> (final(input).controls(), final(input).active_view()) == react_spec(
            old(input).controls(),
            old(input).active_view(),
            action,
            pressed == Pressed::Yes,
        ),
        !is_modifier(action) ==> final(input).controls() == old(input).controls()
            && final(input).active_view() == old(input).active_view(),
        final(input).others_equal(&*old(input)),
{
    match action {
        BooleanAction::Shift => react_to_modifier(input, BooleanAction::Shift, pressed),
        BooleanAction::Control => react_to_modifier(input, BooleanAction::Control, pressed),
        BooleanAction::Alt => react_to_modifier(input, BooleanAction::Alt, pressed),
        _ => {},
    }
}

/// Whether some held hotkey has action `action`.
pub fn is_held(active: &[KeyCodeBooleanAction], action: BooleanAction) -> (r: bool)
    ensures
        r == holds_action(actions_view(active@), action),
{
    let ghost all = actions_view(active@);
    let mut i: usize = 0;
    while i < active.len()
        invariant
            all == actions_view(active@),
            0 <= i <= active@.len(),
            forall|j: int| 0 <= j < i ==> all[j].1 != action,
        decreases active@.len() - i,
    {
        proof {
            assert(all[i as int].1 == active@[i as int].1);
        }
        if active[i].1 == action {
            return true;
        }
        i = i + 1;
    }
    false
}

/// Whether a key event was taken as a hotkey; an unused one carries its key code.
#[derive(Debug, PartialEq)]
pub enum ActionUsed {
    Yes,
    No(String),
}

/// The controls, the held hotkeys and whether the key was used, after the key `key` goes
/// down (`pressed`) or up.
pub open spec fn hotkey_outcome(c: Controls, active: Seq<(Seq<char>, BooleanAction)>, key: Seq<char>, pressed: bool) -> (
    Controls,
    Seq<(Seq<char>, BooleanAction)>,
    bool,
) {
    let (maybe_key, maybe_action) = contextualized_action(c.shift, c.control, c.alt, key);
    match maybe_action {
        None => (c, active, false),
        Some(a) => {
            let held_key = match maybe_key {
                Some(k) => k,
                None => key,
            };
            let (c2, act2) = action_outcome(c, active, held_key, a, pressed);
            (c2, act2, true)
        },
    }
}

/// The controls and held hotkeys after the bound key held as `held_key`, with action `a`,
/// goes down (`pressed`) or up: a modifier first turns the held hotkeys into their
/// (un)modified forms; an action already held is not pressed again.
pub open spec fn action_outcome(
    c: Controls,
    active: Seq<(Seq<char>, BooleanAction)>,
    held_key: Seq<char>,
    a: BooleanAction,
    pressed: bool,
) -> (Controls, Seq<(Seq<char>, BooleanAction)>) {
    let (c1, act1) = if is_modifier(a) {
        react_spec(c, active, a, pressed)
    } else {
        (c, active)
    };
    if pressed && holds_action(act1, a) {
        (c1, act1)
    } else if pressed {
        (with_action(c1, a, true), act1.push((held_key, a)))
    } else {
        (with_action(c1, a, false), remove_first(act1, a))
    }
}

/// The key event can be handled without a modifier change falling outside the held
/// hotkeys.
pub open spec fn hotkey_in_bounds(c: Controls, active: Seq<(Seq<char>, BooleanAction)>, key: Seq<char>, pressed: bool) -> bool {
    match contextualized_action(c.shift, c.control, c.alt, key).1 {
        Some(a) => is_modifier(a) ==> react_in_bounds(active, a, pressed),
        None => true,
    }
}

/// Handles a key going down or up: a bound key sets the state that its (possibly
/// modified) action drives and is held until released; a modifier also turns the held
/// hotkeys into their modified forms. A key already held is not held twice.
pub fn trigger_hotkey_action_intern(input: &mut Input, keycode: &str, pressed: Pressed) -> (r: ActionUsed)
    requires
        hotkey_in_bounds(old(input).controls(), old(input).active_view(), keycode@, pressed == Pressed::Yes),
    ensures
        ({
            let (c, active, used) = hotkey_outcome(
                old(input).controls(),
                old(input).active_view(),
                keycode@,
                pressed == Pressed::Yes,
            );
            &&& final(input).controls() == c
            &&& final(input).active_view() == active
            &&& used <==> r is Yes
            &&& r matches ActionUsed::No(k) ==> k@ == keycode@
        }),
        final(input).others_equal(&*old(input)),
{
    let (maybe_new_keycode, action) = get_contextualized_action(input, keycode);
    match action {
        None => ActionUsed::No(keycode.to_owned()),
        Some(action) => {
            let held = match maybe_new_keycode {
                Some(k) => k,
                None => keycode.to_owned(),
            };
            apply_hotkey(input, held, action, pressed);
            ActionUsed::Yes
        },
    }
}

/// Applies the action of a bound key going down or up, the key held under the code `held`.
fn apply_hotkey(input: &mut Input, held: String, action: BooleanAction, pressed: Pressed)
    requires
        is_modifier(action) ==> react_in_bounds(old(input).active_view(), action, pressed == Pressed::Yes),
    ensures
        (final(input).controls(), final(input).active_view()) == action_outcome(
            old(input).controls(),
            old(input).active_view(),
            held@,
            action,
            pressed == Pressed::Yes,
        ),
        final(input).others_equal(&*old(input)),
{
    process_modifiers(input, action, pressed);
    if pressed == Pressed::Yes && is_held(input.active_pressed_actions.as_slice(), action) {
        return;
    }
    match pressed {
        Pressed::Yes => press_held(input, held, action),
        Pressed::No => {
            handle_action(input, action, pressed);
            remove_action(input, action);
        },
    }
}

/// Pressing a bound key and releasing it again, with no modifier down and its action not
/// already held, leaves the held hotkeys as they were and the action's state released.
#[verifier::spinoff_prover]
#[verifier::rlimit(40)]
pub proof fn lemma_press_then_release_restores(c: Controls, active: Seq<(Seq<char>, BooleanAction)>, key: Seq<char>)
    requires
        !c.shift,
        !c.control,
        !c.alt,
        key_action(key) is Some,
        !is_modifier(key_action(key)->0),
        !holds_action(active, key_action(key)->0),
    ensures
        ({
            let a = key_action(key)->0;
            let (c1, act1, used1) = hotkey_outcome(c, active, key, true);
            let (c2, act2, used2) = hotkey_outcome(c1, act1, key, false);
            &&& used1 && used2
            &&& act1 == active.push((key, a))
            &&& act2 == active
            &&& c2 == with_action(c, a, false)
        }),
{
    let a = key_action(key)->0;
    let pushed = active.push((key, a));
    assert(holds_action(pushed, a)) by {
        assert(pushed[active.len() as int].1 == a);
    }
    let k = first_with_action(pushed, a);
    assert(0 <= k < pushed.len() && pushed[k].1 == a && forall|j: int| 0 <= j < k ==> pushed[j].1 != a) by {
        assert(pushed[active.len() as int].1 == a);
        assert(forall|j: int| 0 <= j < active.len() ==> pushed[j] == active[j]);
    }
    assert(k == active.len()) by {
        if k < active.len() {
            assert(pushed[k] == active[k]);
        }
    }
    assert(pushed.remove(k) =~= active);
}

/// Pressing a key whose (non-modifier) action is already held changes nothing: a hotkey
/// is never held twice.
pub proof fn lemma_press_of_held_action_is_absorbed(
    c: Controls,
    active: Seq<(Seq<char>, BooleanAction)>,
    key: Seq<char>,
)
    requires
        contextualized_action(c.shift, c.control, c.alt, key).1 is Some,
        !is_modifier(contextualized_action(c.shift, c.control, c.alt, key).1->0),
        holds_action(active, contextualized_action(c.shift, c.control, c.alt, key).1->0),
    ensures
        hotkey_outcome(c, active, key, true) == (c, active, true),
{
}

/// A key that no hotkey is bound to leaves the controls and the held hotkeys as they were
/// and is reported as unused.
pub proof fn lemma_unbound_key_is_unused(
    c: Controls,
    active: Seq<(Seq<char>, BooleanAction)>,
    key: Seq<char>,
    pressed: bool,
)
    requires
        key_action(key) is None,
    ensures
        hotkey_outcome(c, active, key, pressed) == (c, active, false),
{
}

/// Pressing a controller hotkey and releasing it again, with no modifier down and the key
/// not already held, leaves the held controller hotkeys as they were, the modifier flags
/// untouched, and the controller's input released.
pub proof fn lemma_controller_press_then_release_restores(
    c: Controls,
    inputs: Seq<IncDec<bool>>,
    active: Seq<Seq<char>>,
    entries: Seq<(Seq<char>, KeyEventKind, usize)>,
    key: Seq<char>,
)
    requires
        !c.shift,
        !c.control,
        !c.alt,
        modifier_of_key(key) is None,
        event_of(entries, key) is Some,
        controller_key_ok(inputs.len(), entries, key),
        !active.contains(key),
    ensures
        ({
            let (c1, i1, a1, u1) = controller_hotkey_outcome(c, inputs, active, entries, key, true);
            let (c2, i2, a2, u2) = controller_hotkey_outcome(c1, i1, a1, entries, key, false);
            &&& u1 && u2
            &&& a1 == active.push(key)
            &&& a2 == active
            &&& c2 == c
            &&& (event_of(entries, key) matches Some((KeyEventKind::Inc, n)) ==> i2 == inputs.update(
                n as int,
                IncDec { increase: false, decrease: inputs[n as int].decrease },
            ))
            &&& (event_of(entries, key) matches Some((KeyEventKind::Dec, n)) ==> i2 == inputs.update(
                n as int,
                IncDec { increase: inputs[n as int].increase, decrease: false },
            ))
        }),
{
    reveal(apply_controller_key);
    let pushed = active.push(key);
    assert(pushed.contains(key)) by {
        assert(pushed[active.len() as int] == key);
    }
    let f = first_key_index(pushed, key);
    assert(0 <= f < pushed.len() && pushed[f] == key && forall|j: int| 0 <= j < f ==> pushed[j] != key) by {
        assert(pushed[active.len() as int] == key);
        assert(forall|j: int| 0 <= j < active.len() ==> pushed[j] == active[j]);
    }
    assert(f == active.len()) by {
        if f < active.len() {
            assert(pushed[f] == active[f]);
        }
    }
    assert(pushed.remove(f) =~= active);
    match event_of(entries, key) {
        Some((KeyEventKind::Inc, n)) => {
            assert(inputs.update(n as int, IncDec { increase: true, decrease: inputs[n as int].decrease }).update(
                n as int,
                IncDec { increase: false, decrease: inputs[n as int].decrease },
            ) =~= inputs.update(n as int, IncDec { increase: false, decrease: inputs[n as int].decrease }));
        },
        Some((KeyEventKind::Dec, n)) => {
            assert(inputs.update(n as int, IncDec { increase: inputs[n as int].increase, decrease: true }).update(
                n as int,
                IncDec { increase: inputs[n as int].increase, decrease: false },
            ) =~= inputs.update(n as int, IncDec { increase: inputs[n as int].increase, decrease: false }));
        },
        _ => {},
    }
}

/// The key codes of the Shift keys.
pub open spec fn is_shift_key(k: Seq<char>) -> bool {
    k == "shift"@ || k == "left shift"@ || k == "right shift"@
}

pub fn is_shift(keycode: &str) -> (r: bool)
    ensures
        r == is_shift_key(keycode@),
{
    str_eq(keycode, "shift") || str_eq(keycode, "left shift") || str_eq(keycode, "right shift")
}

pub fn is_ctrl(keycode: &str) -> (r: bool)
    ensures
        r == (keycode@ == "control"@),
{
    str_eq(keycode, "control")
}

pub fn is_alt(keycode: &str) -> (r: bool)
    ensures
        r == (keycode@ == "alt"@),
{
    str_eq(keycode, "alt")
}

/// For controller hotkeys, a modifier going down modifies every held key code: each is
/// released and its prefixed form pressed.
pub fn modify_active_actions_2(active_actions: &[String], modifier_code: &str) -> (r: (
    Vec<String>,
    Vec<(usize, String)>,
))
    ensures
        r.0@.len() == active_actions@.len(),
        r.1@.len() == active_actions@.len(),
        forall|i: int|
            0 <= i < active_actions@.len() ==> (#[trigger] r.0@[i])@ == modifier_code@
                + active_actions@[i]@,
        forall|i: int|
            0 <= i < active_actions@.len() ==> (#[trigger] r.1@[i]).0 == i && r.1@[i].1@
                == active_actions@[i]@,
        (keys_view(r.0@), dels_view(r.1@)) == modify_keys_spec(keys_view(active_actions@), modifier_code@),
{
    let mut to_delete: Vec<(usize, String)> = Vec::new();
    let mut to_add: Vec<String> = Vec::new();
    let mut i: usize = 0;
    while i < active_actions.len()
        invariant
            0 <= i <= active_actions@.len(),
            to_add@.len() == i,
            to_delete@.len() == i,
            forall|j: int|
                0 <= j < i ==> (#[trigger] to_add@[j])@ == modifier_code@ + active_actions@[j]@,
            forall|j: int|
                0 <= j < i ==> (#[trigger] to_delete@[j]).0 == j && to_delete@[j].1@
                    == active_actions@[j]@,
        decreases active_actions@.len() - i,
    {
        let keycode = &active_actions[i];
        let modified_keycode = concat(modifier_code, keycode.as_str());
        to_delete.push((i, keycode.clone()));
        to_add.push(modified_keycode);
        i = i + 1;
    }
    proof {
        let (a, d) = modify_keys_spec(keys_view(active_actions@), modifier_code@);
        assert(keys_view(to_add@) =~= a);
        assert(dels_view(to_delete@) =~= d);
    }
    (to_add, to_delete)
}

/// The controller hotkey codes that a modifier gives back when it goes up.
pub open spec fn unmodify_keys_spec(active: Seq<Seq<char>>, code: Seq<char>) -> (
    Seq<Seq<char>>,
    Seq<(usize, Seq<char>)>,
)
    decreases active.len(),
{
    if active.len() == 0 {
        (Seq::empty(), Seq::empty())
    } else {
        let (adds, dels) = unmodify_keys_spec(active.drop_last(), code);
        let i = active.len() - 1;
        if has_prefix(active[i], code) {
            (adds.push(remove_all(active[i], code)), dels.push((i as usize, active[i])))
        } else {
            (adds, dels)
        }
    }
}

/// For controller hotkeys, a modifier going up releases every held key code that starts
/// with its prefix and presses the key code without the prefix.
pub fn unmodify_active_actions_2(active_actions: &[String], modifier_code: &str) -> (r: (
    Vec<String>,
    Vec<(usize, String)>,
))
    requires
        modifier_code@.len() > 0,
    ensures
        (keys_view(r.0@), dels_view(r.1@)) == unmodify_keys_spec(
            keys_view(active_actions@),
            modifier_code@,
        ),
{
    let mut to_delete: Vec<(usize, String)> = Vec::new();
    let mut to_add: Vec<String> = Vec::new();
    let ghost all = keys_view(active_actions@);
    let mut i: usize = 0;
    while i < active_actions.len()
        invariant
            all == keys_view(active_actions@),
            modifier_code@.len() > 0,
            0 <= i <= active_actions@.len(),
            (keys_view(to_add@), dels_view(to_delete@)) == unmodify_keys_spec(all.take(i as int), modifier_code@),
        decreases active_actions@.len() - i,
    {
        let keycode = active_actions[i].as_str();
        proof {
            assert(all.take(i + 1).drop_last() =~= all.take(i as int));
            assert(all.take(i + 1)[i as int] == keycode@);
        }
        if starts_with(keycode, modifier_code) {
            let ghost prev_del = to_delete@;
            let ghost prev_add = to_add@;
            let kept = keycode.to_owned();
            to_delete.push((i, kept));
            let unmodified_keycode = remove_all_occurrences(keycode, modifier_code);
            to_add.push(unmodified_keycode);
            proof {
                assert(dels_view(to_delete@) =~= dels_view(prev_del).push((i, keycode@)));
                assert(keys_view(to_add@) =~= keys_view(prev_add).push(remove_all(keycode@, modifier_code@)));
            }
        }
        i = i + 1;
    }
    proof {
        assert(all.take(active_actions@.len() as int) =~= all);
    }
    (to_add, to_delete)
}


/// The controller hotkeys to release, with their positions, viewed.
pub open spec fn dels_view(v: Seq<(usize, String)>) -> Seq<(usize, Seq<char>)> {
    v.map_values(|d: (usize, String)| (d.0, d.1@))
}

/// What a modifier going down asks of the held controller hotkeys: each is released, and
/// its prefixed form pressed.
pub open spec fn modify_keys_spec(active: Seq<Seq<char>>, code: Seq<char>) -> (
    Seq<Seq<char>>,
    Seq<(usize, Seq<char>)>,
) {
    (
        active.map_values(|k: Seq<char>| code + k),
        Seq::new(active.len(), |i: int| (i as usize, active[i])),
    )
}

/// The flags and the controllers' key inputs after the key `key` goes down (`p`) or up:
/// a modifier key sets its flag; the increase or decrease key of a controller sets that
/// input of it.
#[verifier::opaque]
pub open spec fn apply_controller_key(
    c: Controls,
    inputs: Seq<IncDec<bool>>,
    entries: Seq<(Seq<char>, KeyEventKind, usize)>,
    key: Seq<char>,
    p: bool,
) -> (Controls, Seq<IncDec<bool>>) {
    if is_shift_key(key) {
        (with_action(c, BooleanAction::Shift, p), inputs)
    } else if key == "control"@ {
        (with_action(c, BooleanAction::Control, p), inputs)
    } else if key == "alt"@ {
        (with_action(c, BooleanAction::Alt, p), inputs)
    } else {
        match event_of(entries, key) {
            Some((KeyEventKind::Inc, i)) => (
                c,
                inputs.update(i as int, IncDec { increase: p, decrease: inputs[i as int].decrease }),
            ),
            Some((KeyEventKind::Dec, i)) => (
                c,
                inputs.update(i as int, IncDec { increase: inputs[i as int].increase, decrease: p }),
            ),
            _ => (c, inputs),
        }
    }
}

/// The key can be handled: a controller key names a controller that exists and is not a
/// value-setting tag (that would be a broken table).
pub open spec fn controller_key_ok(len: nat, entries: Seq<(Seq<char>, KeyEventKind, usize)>, key: Seq<char>) -> bool {
    is_shift_key(key) || key == "control"@ || key == "alt"@ || match event_of(entries, key) {
        Some((KeyEventKind::SetValue, _)) => false,
        Some((_, i)) => i < len,
        None => true,
    }
}

/// Sets the modifier flag or the controller input that the key `keycode` drives.
pub fn handle_action_2(
    input: &mut Input,
    inputs: &mut Vec<IncDec<bool>>,
    events: &ControllerEvents,
    keycode: &str,
    pressed: Pressed,
)
    requires
        controller_key_ok(old(inputs)@.len(), events.view_entries(), keycode@),
    ensures
        final(input).controls() == apply_controller_key(
            old(input).controls(),
            old(inputs)@,
            events.view_entries(),
            keycode@,
            pressed == Pressed::Yes,
        ).0,
        final(inputs)@ == apply_controller_key(
            old(input).controls(),
            old(inputs)@,
            events.view_entries(),
            keycode@,
            pressed == Pressed::Yes,
        ).1,
        final(inputs)@.len() == old(inputs)@.len(),
        final(input).others_equal(&*old(input)),
        final(input).active_pressed_actions@ == old(input).active_pressed_actions@,
{
    let p = match pressed {
        Pressed::Yes => true,
        Pressed::No => false,
    };
    proof {
        reveal(apply_controller_key);
    }
    if is_shift(keycode) {
        handle_action(input, BooleanAction::Shift, pressed);
    } else if is_ctrl(keycode) {
        handle_action(input, BooleanAction::Control, pressed);
    } else if is_alt(keycode) {
        handle_action(input, BooleanAction::Alt, pressed);
    } else {
        match events.get(keycode) {
            Some((KeyEventKind::Inc, i)) => {
                let d = inputs[i].decrease;
                inputs.set(i, IncDec { increase: p, decrease: d });
            },
            Some((KeyEventKind::Dec, i)) => {
                let n = inputs[i].increase;
                inputs.set(i, IncDec { increase: n, decrease: p });
            },
            _ => {},
        }
    }
}

/// The state that the controller hotkeys drive: the modifier flags and the controllers'
/// key inputs.
pub open spec fn release_keys_2(
    c: Controls,
    inputs: Seq<IncDec<bool>>,
    entries: Seq<(Seq<char>, KeyEventKind, usize)>,
    dels: Seq<(usize, Seq<char>)>,
) -> (Controls, Seq<IncDec<bool>>)
    decreases dels.len(),
{
    if dels.len() == 0 {
        (c, inputs)
    } else {
        let (c1, i1) = release_keys_2(c, inputs, entries, dels.drop_last());
        apply_controller_key(c1, i1, entries, dels.last().1, false)
    }
}

/// The state after the keys of `adds` go down, in order.
pub open spec fn press_keys_2(
    c: Controls,
    inputs: Seq<IncDec<bool>>,
    entries: Seq<(Seq<char>, KeyEventKind, usize)>,
    adds: Seq<Seq<char>>,
) -> (Controls, Seq<IncDec<bool>>)
    decreases adds.len(),
{
    if adds.len() == 0 {
        (c, inputs)
    } else {
        let (c1, i1) = press_keys_2(c, inputs, entries, adds.drop_last());
        apply_controller_key(c1, i1, entries, adds.last(), true)
    }
}

/// The list after the entries at the positions of `dels` are removed one after another.
pub open spec fn remove_positions<T>(active: Seq<T>, dels: Seq<(usize, Seq<char>)>) -> Seq<T>
    decreases dels.len(),
{
    if dels.len() == 0 {
        active
    } else {
        remove_positions(active, dels.drop_last()).remove(dels.last().0 as int)
    }
}

/// The changes of a modifier can be made: each removal falls inside the list that the
/// previous ones left, and every key released or pressed can be handled.
pub open spec fn modifications_ok_2(
    len: nat,
    inputs_len: nat,
    entries: Seq<(Seq<char>, KeyEventKind, usize)>,
    adds: Seq<Seq<char>>,
    dels: Seq<(usize, Seq<char>)>,
) -> bool {
    &&& forall|k: int| 0 <= k < dels.len() ==> (#[trigger] dels[k]).0 < len - k
    &&& forall|k: int| 0 <= k < dels.len() ==> controller_key_ok(inputs_len, entries, (#[trigger] dels[k]).1)
    &&& forall|k: int| 0 <= k < adds.len() ==> controller_key_ok(inputs_len, entries, #[trigger] adds[k])
}

/// Releases the controller hotkey `key` and stops holding the one at position `i`.
#[verifier::spinoff_prover]
#[verifier::rlimit(40)]
fn release_controller_key(input: &mut Input, inputs: &mut Vec<IncDec<bool>>, events: &ControllerEvents, i: usize, key: &str)
    requires
        i < old(input).active_pressed_actions_2@.len(),
        controller_key_ok(old(inputs)@.len(), events.view_entries(), key@),
    ensures
        final(input).controls() == apply_controller_key(
            old(input).controls(),
            old(inputs)@,
            events.view_entries(),
            key@,
            false,
        ).0,
        final(inputs)@ == apply_controller_key(
            old(input).controls(),
            old(inputs)@,
            events.view_entries(),
            key@,
            false,
        ).1,
        final(inputs)@.len() == old(inputs)@.len(),
        final(input).controller_keys_view() == old(input).controller_keys_view().remove(i as int),
        final(input).active_pressed_actions_2@.len() == old(input).active_pressed_actions_2@.len() - 1,
        final(input).others_equal_2(&*old(input)),
{
    handle_action_2(input, inputs, events, key, Pressed::No);
    let ghost before = input.active_pressed_actions_2@;
    input.active_pressed_actions_2.remove(i);
    proof {
        assert(keys_view(before.remove(i as int)) =~= keys_view(before).remove(i as int));
    }
}

/// Presses the controller hotkey `key` and holds it.
#[verifier::spinoff_prover]
#[verifier::rlimit(40)]
fn press_controller_key(input: &mut Input, inputs: &mut Vec<IncDec<bool>>, events: &ControllerEvents, key: &str)
    requires
        controller_key_ok(old(inputs)@.len(), events.view_entries(), key@),
    ensures
        final(input).controls() == apply_controller_key(
            old(input).controls(),
            old(inputs)@,
            events.view_entries(),
            key@,
            true,
        ).0,
        final(inputs)@ == apply_controller_key(
            old(input).controls(),
            old(inputs)@,
            events.view_entries(),
            key@,
            true,
        ).1,
        final(inputs)@.len() == old(inputs)@.len(),
        final(input).controller_keys_view() == old(input).controller_keys_view().push(key@),
        final(input).others_equal_2(&*old(input)),
{
    handle_action_2(input, inputs, events, key, Pressed::Yes);
    let ghost before = input.active_pressed_actions_2@;
    input.active_pressed_actions_2.push(key.to_owned());
    proof {
        assert(keys_view(input.active_pressed_actions_2@) =~= keys_view(before).push(key@));
    }
}

/// Releases the controller hotkeys of `to_delete` and stops holding them, then presses
/// those of `to_add` and holds them.
pub fn resolve_modifications_2(
    input: &mut Input,
    inputs: &mut Vec<IncDec<bool>>,
    events: &ControllerEvents,
    to_add: Vec<String>,
    to_delete: Vec<(usize, String)>,
)
    requires
        modifications_ok_2(
            old(input).active_pressed_actions_2@.len(),
            old(inputs)@.len(),
            events.view_entries(),
            keys_view(to_add@),
            dels_view(to_delete@),
        ),
    ensures
        (final(input).controls(), final(inputs)@) == press_keys_2(
            release_keys_2(old(input).controls(), old(inputs)@, events.view_entries(), dels_view(to_delete@)).0,
            release_keys_2(old(input).controls(), old(inputs)@, events.view_entries(), dels_view(to_delete@)).1,
            events.view_entries(),
            keys_view(to_add@),
        ),
        final(inputs)@.len() == old(inputs)@.len(),
        final(input).controller_keys_view() == remove_positions(old(input).controller_keys_view(), dels_view(to_delete@))
            + keys_view(to_add@),
        final(input).others_equal_2(&*old(input)),
{
    let ghost entries = events.view_entries();
    let ghost c0 = input.controls();
    let ghost i0 = inputs@;
    let ghost k0 = input.controller_keys_view();
    let ghost n0 = input.active_pressed_actions_2@.len();
    let ghost dels = dels_view(to_delete@);
    let ghost adds = keys_view(to_add@);
    let mut k: usize = 0;
    while k < to_delete.len()
        invariant
            0 <= k <= dels.len(),
            dels == dels_view(to_delete@),
            adds == keys_view(to_add@),
            entries == events.view_entries(),
            modifications_ok_2(n0, i0.len(), entries, adds, dels),
            inputs@.len() == i0.len(),
            input.active_pressed_actions_2@.len() == n0 - k,
            (input.controls(), inputs@) == release_keys_2(c0, i0, entries, dels.take(k as int)),
            input.controller_keys_view() == remove_positions(k0, dels.take(k as int)),
            input.others_equal_2(&*old(input)),
        decreases dels.len() - k,
    {
        let i = to_delete[k].0;
        proof {
            assert(dels.take(k + 1).drop_last() =~= dels.take(k as int));
            assert(dels[k as int] == (i, to_delete@[k as int].1@));
            assert(dels.take(k + 1).last() == dels[k as int]);
            assert(controller_key_ok(i0.len(), entries, dels[k as int].1));
        }
        release_controller_key(input, inputs, events, i, to_delete[k].1.as_str());
        k = k + 1;
    }
    proof {
        assert(dels.take(dels.len() as int) =~= dels);
    }
    let ghost c1 = input.controls();
    let ghost i1 = inputs@;
    let ghost k1 = input.controller_keys_view();
    let mut k: usize = 0;
    while k < to_add.len()
        invariant
            0 <= k <= adds.len(),
            adds == keys_view(to_add@),
            entries == events.view_entries(),
            modifications_ok_2(n0, i0.len(), entries, adds, dels),
            inputs@.len() == i0.len(),
            (input.controls(), inputs@) == press_keys_2(c1, i1, entries, adds.take(k as int)),
            input.controller_keys_view() == k1 + adds.take(k as int),
            input.others_equal_2(&*old(input)),
        decreases adds.len() - k,
    {
        proof {
            assert(adds.take(k + 1).drop_last() =~= adds.take(k as int));
            assert(adds.take(k + 1).last() == adds[k as int]);
            assert(adds[k as int] == to_add@[k as int]@);
            assert(controller_key_ok(i0.len(), entries, adds[k as int]));
        }
        press_controller_key(input, inputs, events, to_add[k].as_str());
        proof {
            assert(k1 + adds.take(k + 1) =~= (k1 + adds.take(k as int)).push(adds[k as int]));
        }
        k = k + 1;
    }
    proof {
        assert(adds.take(adds.len() as int) =~= adds);
    }
}

/// What a modifier going down or up asks of the held controller hotkeys.
pub open spec fn modifier_changes_2(active: Seq<Seq<char>>, modifier: BooleanAction, pressed: bool) -> (
    Seq<Seq<char>>,
    Seq<(usize, Seq<char>)>,
) {
    if pressed {
        modify_keys_spec(active, modifier_code(modifier))
    } else {
        unmodify_keys_spec(active, modifier_code(modifier))
    }
}

/// The flags, the controllers' inputs and the held controller hotkeys after a modifier
/// goes down or up.
pub open spec fn react_spec_2(
    c: Controls,
    inputs: Seq<IncDec<bool>>,
    active: Seq<Seq<char>>,
    entries: Seq<(Seq<char>, KeyEventKind, usize)>,
    modifier: BooleanAction,
    pressed: bool,
) -> (Controls, Seq<IncDec<bool>>, Seq<Seq<char>>) {
    let (adds, dels) = modifier_changes_2(active, modifier, pressed);
    let (c1, i1) = release_keys_2(c, inputs, entries, dels);
    let (c2, i2) = press_keys_2(c1, i1, entries, adds);
    (c2, i2, remove_positions(active, dels) + adds)
}

/// A modifier's changes to the held controller hotkeys can be made.
pub open spec fn react_ok_2(
    active: Seq<Seq<char>>,
    inputs_len: nat,
    entries: Seq<(Seq<char>, KeyEventKind, usize)>,
    modifier: BooleanAction,
    pressed: bool,
) -> bool {
    let (adds, dels) = modifier_changes_2(active, modifier, pressed);
    modifications_ok_2(active.len(), inputs_len, entries, adds, dels)
}

/// Turns the held controller hotkeys into their modified or unmodified forms when a
/// modifier goes down or up.
pub fn react_to_modifier_2(
    input: &mut Input,
    inputs: &mut Vec<IncDec<bool>>,
    events: &ControllerEvents,
    modifier: BooleanAction,
    pressed: Pressed,
)
    requires
        is_modifier(modifier),
        react_ok_2(old(input).controller_keys_view(), old(inputs)@.len(), events.view_entries(), modifier, pressed == Pressed::Yes),
    ensures
        (final(input).controls(), final(inputs)@, final(input).controller_keys_view()) == react_spec_2(
            old(input).controls(),
            old(inputs)@,
            old(input).controller_keys_view(),
            events.view_entries(),
            modifier,
            pressed == Pressed::Yes,
        ),
        final(inputs)@.len() == old(inputs)@.len(),
        final(input).others_equal_2(&*old(input)),
{
    let modifier_code = get_modifier_code(modifier);
    proof {
        lemma_modifier_code_nonempty(modifier);
    }
    let (to_add, to_delete) = match pressed {
        Pressed::Yes => modify_active_actions_2(input.active_pressed_actions_2.as_slice(), modifier_code),
        Pressed::No => unmodify_active_actions_2(input.active_pressed_actions_2.as_slice(), modifier_code),
    };
    resolve_modifications_2(input, inputs, events, to_add, to_delete);
}

/// The modifier that a key code is, if any.
pub open spec fn modifier_of_key(k: Seq<char>) -> Option<BooleanAction> {
    if is_shift_key(k) {
        Some(BooleanAction::Shift)
    } else if k == "control"@ {
        Some(BooleanAction::Control)
    } else if k == "alt"@ {
        Some(BooleanAction::Alt)
    } else {
        None
    }
}

/// Reacts to a modifier key going down or up; other keys change nothing here.
pub fn process_modifiers_2(
    input: &mut Input,
    inputs: &mut Vec<IncDec<bool>>,
    events: &ControllerEvents,
    keycode: &str,
    pressed: Pressed,
)
    requires
        modifier_of_key(keycode@) matches Some(m) ==> react_ok_2(
            old(input).controller_keys_view(),
            old(inputs)@.len(),
            events.view_entries(),
            m,
            pressed == Pressed::Yes,
        ),
    ensures
        modifier_of_key(keycode@) matches Some(m) ==> (final(input).controls(), final(inputs)@,
            final(input).controller_keys_view()) == react_spec_2(
            old(input).controls(),
            old(inputs)@,
            old(input).controller_keys_view(),
            events.view_entries(),
            m,
            pressed == Pressed::Yes,
        ),
        modifier_of_key(keycode@) is None ==> final(input).controls() == old(input).controls() && final(inputs)@
            == old(inputs)@ && final(input).controller_keys_view() == old(input).controller_keys_view(),
        final(inputs)@.len() == old(inputs)@.len(),
        final(input).others_equal_2(&*old(input)),
{
    if is_shift(keycode) {
        react_to_modifier_2(input, inputs, events, BooleanAction::Shift, pressed)
    } else if is_ctrl(keycode) {
        react_to_modifier_2(input, inputs, events, BooleanAction::Control, pressed)
    } else if is_alt(keycode) {
        react_to_modifier_2(input, inputs, events, BooleanAction::Alt, pressed)
    }
}

/// The key code that the key `key` stands for among the controller hotkeys, with the
/// modifier held: only a key that a controller answers to counts, and the modifier's
/// prefix is then put before it.
pub open spec fn contextualized_key_2(c: Controls, entries: Seq<(Seq<char>, KeyEventKind, usize)>, key: Seq<char>) -> Option<
    Seq<char>,
> {
    if event_of(entries, key) is None {
        None
    } else if c.shift && !is_shift_key(key) {
        Some("shift+"@ + key)
    } else if c.control && key != "control"@ {
        Some("ctrl+"@ + key)
    } else if c.alt && key != "alt"@ {
        Some("alt+"@ + key)
    } else {
        Some(key)
    }
}

/// The controller hotkey code for `keycode`, if a controller answers to the key.
pub fn get_contextualized_action_2(input: &Input, events: &ControllerEvents, keycode: &str) -> (r: Option<String>)
    ensures
        (match r {
            Some(k) => Some(k@),
            None => None,
        }) == contextualized_key_2(input.controls(), events.view_entries(), keycode@),
{
    if !events.contains_key(keycode) {
        return None;
    }
    if input.shift && !is_shift(keycode) {
        Some(concat("shift+", keycode))
    } else if input.control && !is_ctrl(keycode) {
        Some(concat("ctrl+", keycode))
    } else if input.alt && !is_alt(keycode) {
        Some(concat("alt+", keycode))
    } else {
        Some(keycode.to_owned())
    }
}

/// The held controller hotkeys without the first `key`, if held.
pub open spec fn remove_first_key(active: Seq<Seq<char>>, key: Seq<char>) -> Seq<Seq<char>> {
    if active.contains(key) {
        active.remove(first_key_index(active, key))
    } else {
        active
    }
}

/// The position of the first `key` among the held controller hotkeys.
pub open spec fn first_key_index(active: Seq<Seq<char>>, key: Seq<char>) -> int {
    choose|i: int| 0 <= i < active.len() && active[i] == key && forall|j: int| 0 <= j < i ==> active[j] != key
}

/// Stops holding the first controller hotkey `keycode`, if held.
pub fn remove_action_2(input: &mut Input, keycode: &str)
    ensures
        final(input).controller_keys_view() == remove_first_key(old(input).controller_keys_view(), keycode@),
        final(input).controls() == old(input).controls(),
        final(input).others_equal_2(&*old(input)),
{
    let ghost all = input.controller_keys_view();
    let mut i: usize = 0;
    while i < input.active_pressed_actions_2.len()
        invariant
            all == input.controller_keys_view(),
            all == old(input).controller_keys_view(),
            *input == *old(input),
            all.len() == input.active_pressed_actions_2@.len(),
            0 <= i <= all.len(),
            forall|j: int| 0 <= j < i ==> all[j] != keycode@,
        decreases all.len() - i,
    {
        proof {
            assert(all[i as int] == input.active_pressed_actions_2@[i as int]@);
        }
        if str_eq(input.active_pressed_actions_2[i].as_str(), keycode) {
            proof {
                assert(all.contains(keycode@));
                assert(0 <= i < all.len() && all[i as int] == keycode@ && forall|j: int| 0 <= j < i ==> all[j] != keycode@);
                let f = first_key_index(all, keycode@);
                assert(f == i) by {
                    if f < i {
                        assert(all[f] != keycode@);
                    } else if f > i {
                        assert(all[i as int] != keycode@);
                    }
                }
            }
            let ghost before = input.active_pressed_actions_2@;
            input.active_pressed_actions_2.remove(i);
            proof {
                assert(keys_view(before.remove(i as int)) =~= keys_view(before).remove(i as int));
            }
            return;
        }
        i = i + 1;
    }
    proof {
        if all.contains(keycode@) {
            let f = choose|f: int| 0 <= f < all.len() && all[f] == keycode@;
            assert(all[f] == keycode@);
        }
    }
}

/// Whether the controller hotkey `keycode` is held.
pub fn is_key_held(active: &[String], keycode: &str) -> (r: bool)
    ensures
        r == keys_view(active@).contains(keycode@),
{
    let ghost all = keys_view(active@);
    let mut i: usize = 0;
    while i < active.len()
        invariant
            all == keys_view(active@),
            0 <= i <= all.len(),
            forall|j: int| 0 <= j < i ==> all[j] != keycode@,
        decreases all.len() - i,
    {
        proof {
            assert(all[i as int] == active@[i as int]@);
        }
        if str_eq(active[i].as_str(), keycode) {
            return true;
        }
        i = i + 1;
    }
    false
}

/// The flags, the controllers' inputs, the held controller hotkeys and whether the key was
/// used, after the key `key` goes down (`pressed`) or up.
pub open spec fn controller_hotkey_outcome(
    c: Controls,
    inputs: Seq<IncDec<bool>>,
    active: Seq<Seq<char>>,
    entries: Seq<(Seq<char>, KeyEventKind, usize)>,
    key: Seq<char>,
    pressed: bool,
) -> (Controls, Seq<IncDec<bool>>, Seq<Seq<char>>, bool) {
    match contextualized_key_2(c, entries, key) {
        None => (c, inputs, active, false),
        Some(k) => {
            let (c1, i1, a1) = match modifier_of_key(k) {
                Some(m) => react_spec_2(c, inputs, active, entries, m, pressed),
                None => (c, inputs, active),
            };
            if pressed && a1.contains(k) {
                (c1, i1, a1, true)
            } else {
                let (c2, i2) = apply_controller_key(c1, i1, entries, k, pressed);
                (c2, i2, if pressed { a1.push(k) } else { remove_first_key(a1, k) }, true)
            }
        },
    }
}

/// The key event can be handled among the controller hotkeys: its modifier changes can be
/// made, and the key itself can be handled.
pub open spec fn controller_hotkey_ok(
    c: Controls,
    inputs_len: nat,
    active: Seq<Seq<char>>,
    entries: Seq<(Seq<char>, KeyEventKind, usize)>,
    key: Seq<char>,
    pressed: bool,
) -> bool {
    match contextualized_key_2(c, entries, key) {
        None => true,
        Some(k) => {
            &&& (modifier_of_key(k) matches Some(m) ==> react_ok_2(active, inputs_len, entries, m, pressed))
            &&& controller_key_ok(inputs_len, entries, k)
        },
    }
}

/// Handles a key going down or up among the controller hotkeys: a key that a controller
/// answers to (in its modified form while a modifier is held) drives that controller's
/// input and is held until released. A key held is not held twice.
pub fn trigger_hotkey_action_2(
    input: &mut Input,
    inputs: &mut Vec<IncDec<bool>>,
    events: &ControllerEvents,
    keycode: &str,
    pressed: Pressed,
) -> (r: ActionUsed)
    requires
        controller_hotkey_ok(
            old(input).controls(),
            old(inputs)@.len(),
            old(input).controller_keys_view(),
            events.view_entries(),
            keycode@,
            pressed == Pressed::Yes,
        ),
    ensures
        ({
            let (c, i, a, used) = controller_hotkey_outcome(
                old(input).controls(),
                old(inputs)@,
                old(input).controller_keys_view(),
                events.view_entries(),
                keycode@,
                pressed == Pressed::Yes,
            );
            &&& final(input).controls() == c
            &&& final(inputs)@ == i
            &&& final(input).controller_keys_view() == a
            &&& used <==> r is Yes
            &&& r matches ActionUsed::No(k) ==> k@ == keycode@
        }),
        final(input).others_equal_2(&*old(input)),
{
    match get_contextualized_action_2(input, events, keycode) {
        None => ActionUsed::No(keycode.to_owned()),
        Some(k) => {
            apply_controller_hotkey(input, inputs, events, k, pressed);
            ActionUsed::Yes
        },
    }
}

fn apply_controller_hotkey(
    input: &mut Input,
    inputs: &mut Vec<IncDec<bool>>,
    events: &ControllerEvents,
    k: String,
    pressed: Pressed,
)
    requires
        modifier_of_key(k@) matches Some(m) ==> react_ok_2(
            old(input).controller_keys_view(),
            old(inputs)@.len(),
            events.view_entries(),
            m,
            pressed == Pressed::Yes,
        ),
        controller_key_ok(old(inputs)@.len(), events.view_entries(), k@),
    ensures
        ({
            let (c1, i1, a1) = match modifier_of_key(k@) {
                Some(m) => react_spec_2(
                    old(input).controls(),
                    old(inputs)@,
                    old(input).controller_keys_view(),
                    events.view_entries(),
                    m,
                    pressed == Pressed::Yes,
                ),
                None => (old(input).controls(), old(inputs)@, old(input).controller_keys_view()),
            };
            if pressed == Pressed::Yes && a1.contains(k@) {
                final(input).controls() == c1 && final(inputs)@ == i1 && final(input).controller_keys_view() == a1
            } else {
                let (c2, i2) = apply_controller_key(c1, i1, events.view_entries(), k@, pressed == Pressed::Yes);
                &&& final(input).controls() == c2
                &&& final(inputs)@ == i2
                &&& final(input).controller_keys_view() == (if pressed == Pressed::Yes {
                    a1.push(k@)
                } else {
                    remove_first_key(a1, k@)
                })
            }
        }),
        final(input).others_equal_2(&*old(input)),
{
    process_modifiers_2(input, inputs, events, k.as_str(), pressed);
    if pressed == Pressed::Yes && is_key_held(input.active_pressed_actions_2.as_slice(), k.as_str()) {
        return;
    }
    handle_action_2(input, inputs, events, k.as_str(), pressed);
    match pressed {
        Pressed::Yes => {
            let ghost before = input.active_pressed_actions_2@;
            let ghost kv = k@;
            input.active_pressed_actions_2.push(k);
            proof {
                assert(keys_view(input.active_pressed_actions_2@) =~= keys_view(before).push(kv));
            }
        },
        Pressed::No => remove_action_2(input, k.as_str()),
    }
}

/// Handles a key going down or up: the controller hotkeys first, then, for a key no
/// controller answers to, the simulation hotkeys.
pub fn trigger_hotkey_action(
    input: &mut Input,
    inputs: &mut Vec<IncDec<bool>>,
    events: &ControllerEvents,
    keycode: &str,
    pressed: Pressed,
) -> (r: ActionUsed)
    requires
        controller_hotkey_ok(
            old(input).controls(),
            old(inputs)@.len(),
            old(input).controller_keys_view(),
            events.view_entries(),
            keycode@,
            pressed == Pressed::Yes,
        ),
        contextualized_key_2(old(input).controls(), events.view_entries(), keycode@) is None ==> hotkey_in_bounds(
            old(input).controls(),
            old(input).active_view(),
            keycode@,
            pressed == Pressed::Yes,
        ),
    ensures
        contextualized_key_2(old(input).controls(), events.view_entries(), keycode@) is Some ==> ({
            let (c, i, a, used) = controller_hotkey_outcome(
                old(input).controls(),
                old(inputs)@,
                old(input).controller_keys_view(),
                events.view_entries(),
                keycode@,
                pressed == Pressed::Yes,
            );
            &&& final(input).controls() == c
            &&& final(inputs)@ == i
            &&& final(input).controller_keys_view() == a
            &&& final(input).active_view() == old(input).active_view()
            &&& r is Yes
        }),
        contextualized_key_2(old(input).controls(), events.view_entries(), keycode@) is None ==> ({
            let (c, active, used) = hotkey_outcome(
                old(input).controls(),
                old(input).active_view(),
                keycode@,
                pressed == Pressed::Yes,
            );
            &&& final(input).controls() == c
            &&& final(input).active_view() == active
            &&& final(inputs)@ == old(inputs)@
            &&& final(input).controller_keys_view() == old(input).controller_keys_view()
            &&& used <==> r is Yes
            &&& r matches ActionUsed::No(k) ==> k@ == keycode@
        }),
{
    match trigger_hotkey_action_2(input, inputs, events, keycode, pressed) {
        ActionUsed::Yes => ActionUsed::Yes,
        ActionUsed::No(_) => trigger_hotkey_action_intern(input, keycode, pressed),
    }
}

/// The keys of the controls: the mouse button, the modifiers, the screenshot, the resets,
/// the focus flags, Escape, Space and the rotation keys.
pub proof fn lemma_control_key_bindings()
    ensures
        key_action("mouse_click"@) == Some(BooleanAction::MouseClick),
        key_action("shift"@) == Some(BooleanAction::Shift),
        key_action("left shift"@) == Some(BooleanAction::Shift),
        key_action("right shift"@) == Some(BooleanAction::Shift),
        key_action("control"@) == Some(BooleanAction::Control),
        key_action("alt"@) == Some(BooleanAction::Alt),
        key_action("f4"@) == Some(BooleanAction::Screenshot),
        key_action("capture-framebuffer"@) == Some(BooleanAction::Screenshot),
        key_action("reset-camera"@) == Some(BooleanAction::ResetPosition),
        key_action("reset-filters"@) == Some(BooleanAction::ResetFilters),
        key_action("input_focused"@) == Some(BooleanAction::InputFocused),
        key_action("canvas_focused"@) == Some(BooleanAction::CanvasFocused),
        key_action("escape"@) == Some(BooleanAction::Esc),
        key_action("esc"@) == Some(BooleanAction::Esc),
        key_action("quit-simulation"@) == Some(BooleanAction::Esc),
        key_action(" "@) == Some(BooleanAction::Space),
        key_action("space"@) == Some(BooleanAction::Space),
        key_action("feature-close-panel"@) == Some(BooleanAction::Space),
        key_action("+"@) == Some(BooleanAction::RotateLeft),
        key_action("-"@) == Some(BooleanAction::RotateRight),
{
    reveal_strlit("mouse_click");
    assert("mouse_click"@.len() == 11 && "mouse_click"@[0] == 'm' && "mouse_click"@[1] == 'o' && "mouse_click"@[2] == 'u' && "mouse_click"@[3] == 's' && "mouse_click"@[4] == 'e' && "mouse_click"@[5] == '_' && "mouse_click"@[6] == 'c' && "mouse_click"@[7] == 'l' && "mouse_click"@[8] == 'i' && "mouse_click"@[9] == 'c' && "mouse_click"@[10] == 'k');
    reveal_strlit("shift");
    assert("shift"@.len() == 5 && "shift"@[0] == 's' && "shift"@[1] == 'h' && "shift"@[2] == 'i' && "shift"@[3] == 'f' && "shift"@[4] == 't');
    reveal_strlit("left shift");
    assert("left shift"@.len() == 10 && "left shift"@[0] == 'l' && "left shift"@[1] == 'e' && "left shift"@[2] == 'f' && "left shift"@[3] == 't' && "left shift"@[4] == ' ' && "left shift"@[5] == 's' && "left shift"@[6] == 'h' && "left shift"@[7] == 'i' && "left shift"@[8] == 'f' && "left shift"@[9] == 't');
    reveal_strlit("right shift");
    assert("right shift"@.len() == 11 && "right shift"@[0] == 'r' && "right shift"@[1] == 'i' && "right shift"@[2] == 'g' && "right shift"@[3] == 'h' && "right shift"@[4] == 't' && "right shift"@[5] == ' ' && "right shift"@[6] == 's' && "right shift"@[7] == 'h' && "right shift"@[8] == 'i' && "right shift"@[9] == 'f' && "right shift"@[10] == 't');
    reveal_strlit("control");
    assert("control"@.len() == 7 && "control"@[0] == 'c' && "control"@[1] == 'o' && "control"@[2] == 'n' && "control"@[3] == 't' && "control"@[4] == 'r' && "control"@[5] == 'o' && "control"@[6] == 'l');
    reveal_strlit("alt");
    assert("alt"@.len() == 3 && "alt"@[0] == 'a' && "alt"@[1] == 'l' && "alt"@[2] == 't');
    reveal_strlit("f4");
    assert("f4"@.len() == 2 && "f4"@[0] == 'f' && "f4"@[1] == '4');
    reveal_strlit("capture-framebuffer");
    assert("capture-framebuffer"@.len() == 19 && "capture-framebuffer"@[0] == 'c' && "capture-framebuffer"@[1] == 'a' && "capture-framebuffer"@[2] == 'p' && "capture-framebuffer"@[3] == 't' && "capture-framebuffer"@[4] == 'u' && "capture-framebuffer"@[5] == 'r' && "capture-framebuffer"@[6] == 'e' && "capture-framebuffer"@[7] == '-' && "capture-framebuffer"@[8] == 'f' && "capture-framebuffer"@[9] == 'r' && "capture-framebuffer"@[10] == 'a' && "capture-framebuffer"@[11] == 'm' && "capture-framebuffer"@[12] == 'e' && "capture-framebuffer"@[13] == 'b' && "capture-framebuffer"@[14] == 'u' && "capture-framebuffer"@[15] == 'f' && "capture-framebuffer"@[16] == 'f' && "capture-framebuffer"@[17] == 'e' && "capture-framebuffer"@[18] == 'r');
    reveal_strlit("reset-camera");
    assert("reset-camera"@.len() == 12 && "reset-camera"@[0] == 'r' && "reset-camera"@[1] == 'e' && "reset-camera"@[2] == 's' && "reset-camera"@[3] == 'e' && "reset-camera"@[4] == 't' && "reset-camera"@[5] == '-' && "reset-camera"@[6] == 'c' && "reset-camera"@[7] == 'a' && "reset-camera"@[8] == 'm' && "reset-camera"@[9] == 'e' && "reset-camera"@[10] == 'r' && "reset-camera"@[11] == 'a');
    reveal_strlit("reset-filters");
    assert("reset-filters"@.len() == 13 && "reset-filters"@[0] == 'r' && "reset-filters"@[1] == 'e' && "reset-filters"@[2] == 's' && "reset-filters"@[3] == 'e' && "reset-filters"@[4] == 't' && "reset-filters"@[5] == '-' && "reset-filters"@[6] == 'f' && "reset-filters"@[7] == 'i' && "reset-filters"@[8] == 'l' && "reset-filters"@[9] == 't' && "reset-filters"@[10] == 'e' && "reset-filters"@[11] == 'r' && "reset-filters"@[12] == 's');
    reveal_strlit("input_focused");
    assert("input_focused"@.len() == 13 && "input_focused"@[0] == 'i' && "input_focused"@[1] == 'n' && "input_focused"@[2] == 'p' && "input_focused"@[3] == 'u' && "input_focused"@[4] == 't' && "input_focused"@[5] == '_' && "input_focused"@[6] == 'f' && "input_focused"@[7] == 'o' && "input_focused"@[8] == 'c' && "input_focused"@[9] == 'u' && "input_focused"@[10] == 's' && "input_focused"@[11] == 'e' && "input_focused"@[12] == 'd');
    reveal_strlit("canvas_focused");
    assert("canvas_focused"@.len() == 14 && "canvas_focused"@[0] == 'c' && "canvas_focused"@[1] == 'a' && "canvas_focused"@[2] == 'n' && "canvas_focused"@[3] == 'v' && "canvas_focused"@[4] == 'a' && "canvas_focused"@[5] == 's' && "canvas_focused"@[6] == '_' && "canvas_focused"@[7] == 'f' && "canvas_focused"@[8] == 'o' && "canvas_focused"@[9] == 'c' && "canvas_focused"@[10] == 'u' && "canvas_focused"@[11] == 's' && "canvas_focused"@[12] == 'e' && "canvas_focused"@[13] == 'd');
    reveal_strlit("escape");
    assert("escape"@.len() == 6 && "escape"@[0] == 'e' && "escape"@[1] == 's' && "escape"@[2] == 'c' && "escape"@[3] == 'a' && "escape"@[4] == 'p' && "escape"@[5] == 'e');
    reveal_strlit("esc");
    assert("esc"@.len() == 3 && "esc"@[0] == 'e' && "esc"@[1] == 's' && "esc"@[2] == 'c');
    reveal_strlit("quit-simulation");
    assert("quit-simulation"@.len() == 15 && "quit-simulation"@[0] == 'q' && "quit-simulation"@[1] == 'u' && "quit-simulation"@[2] == 'i' && "quit-simulation"@[3] == 't' && "quit-simulation"@[4] == '-' && "quit-simulation"@[5] == 's' && "quit-simulation"@[6] == 'i' && "quit-simulation"@[7] == 'm' && "quit-simulation"@[8] == 'u' && "quit-simulation"@[9] == 'l' && "quit-simulation"@[10] == 'a' && "quit-simulation"@[11] == 't' && "quit-simulation"@[12] == 'i' && "quit-simulation"@[13] == 'o' && "quit-simulation"@[14] == 'n');
    reveal_strlit(" ");
    assert(" "@.len() == 1 && " "@[0] == ' ');
    reveal_strlit("space");
    assert("space"@.len() == 5 && "space"@[0] == 's' && "space"@[1] == 'p' && "space"@[2] == 'a' && "space"@[3] == 'c' && "space"@[4] == 'e');
    reveal_strlit("feature-close-panel");
    assert("feature-close-panel"@.len() == 19 && "feature-close-panel"@[0] == 'f' && "feature-close-panel"@[1] == 'e' && "feature-close-panel"@[2] == 'a' && "feature-close-panel"@[3] == 't' && "feature-close-panel"@[4] == 'u' && "feature-close-panel"@[5] == 'r' && "feature-close-panel"@[6] == 'e' && "feature-close-panel"@[7] == '-' && "feature-close-panel"@[8] == 'c' && "feature-close-panel"@[9] == 'l' && "feature-close-panel"@[10] == 'o' && "feature-close-panel"@[11] == 's' && "feature-close-panel"@[12] == 'e' && "feature-close-panel"@[13] == '-' && "feature-close-panel"@[14] == 'p' && "feature-close-panel"@[15] == 'a' && "feature-close-panel"@[16] == 'n' && "feature-close-panel"@[17] == 'e' && "feature-close-panel"@[18] == 'l');
    reveal_strlit("+");
    assert("+"@.len() == 1 && "+"@[0] == '+');
    reveal_strlit("-");
    assert("-"@.len() == 1 && "-"@[0] == '-');
}

/// The keys that move the camera: the arrows (by name and by symbol) turn it the way they
/// point, a/d walk left/right, w/s forward/backward, q up and e down.
pub proof fn lemma_movement_key_bindings()
    ensures
        key_action("arrowleft"@) == Some(BooleanAction::TurnLeft),
        key_action("left"@) == Some(BooleanAction::TurnLeft),
        key_action("\u{2190}"@) == Some(BooleanAction::TurnLeft),
        key_action("\u{25c0}"@) == Some(BooleanAction::TurnLeft),
        key_action("arrowright"@) == Some(BooleanAction::TurnRight),
        key_action("right"@) == Some(BooleanAction::TurnRight),
        key_action("\u{2192}"@) == Some(BooleanAction::TurnRight),
        key_action("\u{25b6}"@) == Some(BooleanAction::TurnRight),
        key_action("arrowup"@) == Some(BooleanAction::TurnUp),
        key_action("up"@) == Some(BooleanAction::TurnUp),
        key_action("\u{2191}"@) == Some(BooleanAction::TurnUp),
        key_action("\u{25b2}"@) == Some(BooleanAction::TurnUp),
        key_action("arrowdown"@) == Some(BooleanAction::TurnDown),
        key_action("down"@) == Some(BooleanAction::TurnDown),
        key_action("\u{2193}"@) == Some(BooleanAction::TurnDown),
        key_action("\u{25bc}"@) == Some(BooleanAction::TurnDown),
        key_action("a"@) == Some(BooleanAction::WalkLeft),
        key_action("d"@) == Some(BooleanAction::WalkRight),
        key_action("w"@) == Some(BooleanAction::WalkForward),
        key_action("s"@) == Some(BooleanAction::WalkBackward),
        key_action("q"@) == Some(BooleanAction::WalkUp),
        key_action("e"@) == Some(BooleanAction::WalkDown),
{
    reveal_strlit("mouse_click");
    assert("mouse_click"@.len() == 11 && "mouse_click"@[0] == 'm' && "mouse_click"@[1] == 'o' && "mouse_click"@[2] == 'u' && "mouse_click"@[3] == 's' && "mouse_click"@[4] == 'e' && "mouse_click"@[5] == '_' && "mouse_click"@[6] == 'c' && "mouse_click"@[7] == 'l' && "mouse_click"@[8] == 'i' && "mouse_click"@[9] == 'c' && "mouse_click"@[10] == 'k');
    reveal_strlit("shift");
    assert("shift"@.len() == 5 && "shift"@[0] == 's' && "shift"@[1] == 'h' && "shift"@[2] == 'i' && "shift"@[3] == 'f' && "shift"@[4] == 't');
    reveal_strlit("left shift");
    assert("left shift"@.len() == 10 && "left shift"@[0] == 'l' && "left shift"@[1] == 'e' && "left shift"@[2] == 'f' && "left shift"@[3] == 't' && "left shift"@[4] == ' ' && "left shift"@[5] == 's' && "left shift"@[6] == 'h' && "left shift"@[7] == 'i' && "left shift"@[8] == 'f' && "left shift"@[9] == 't');
    reveal_strlit("right shift");
    assert("right shift"@.len() == 11 && "right shift"@[0] == 'r' && "right shift"@[1] == 'i' && "right shift"@[2] == 'g' && "right shift"@[3] == 'h' && "right shift"@[4] == 't' && "right shift"@[5] == ' ' && "right shift"@[6] == 's' && "right shift"@[7] == 'h' && "right shift"@[8] == 'i' && "right shift"@[9] == 'f' && "right shift"@[10] == 't');
    reveal_strlit("control");
    assert("control"@.len() == 7 && "control"@[0] == 'c' && "control"@[1] == 'o' && "control"@[2] == 'n' && "control"@[3] == 't' && "control"@[4] == 'r' && "control"@[5] == 'o' && "control"@[6] == 'l');
    reveal_strlit("alt");
    assert("alt"@.len() == 3 && "alt"@[0] == 'a' && "alt"@[1] == 'l' && "alt"@[2] == 't');
    reveal_strlit("f4");
    assert("f4"@.len() == 2 && "f4"@[0] == 'f' && "f4"@[1] == '4');
    reveal_strlit("capture-framebuffer");
    assert("capture-framebuffer"@.len() == 19 && "capture-framebuffer"@[0] == 'c' && "capture-framebuffer"@[1] == 'a' && "capture-framebuffer"@[2] == 'p' && "capture-framebuffer"@[3] == 't' && "capture-framebuffer"@[4] == 'u' && "capture-framebuffer"@[5] == 'r' && "capture-framebuffer"@[6] == 'e' && "capture-framebuffer"@[7] == '-' && "capture-framebuffer"@[8] == 'f' && "capture-framebuffer"@[9] == 'r' && "capture-framebuffer"@[10] == 'a' && "capture-framebuffer"@[11] == 'm' && "capture-framebuffer"@[12] == 'e' && "capture-framebuffer"@[13] == 'b' && "capture-framebuffer"@[14] == 'u' && "capture-framebuffer"@[15] == 'f' && "capture-framebuffer"@[16] == 'f' && "capture-framebuffer"@[17] == 'e' && "capture-framebuffer"@[18] == 'r');
    reveal_strlit("reset-camera");
    assert("reset-camera"@.len() == 12 && "reset-camera"@[0] == 'r' && "reset-camera"@[1] == 'e' && "reset-camera"@[2] == 's' && "reset-camera"@[3] == 'e' && "reset-camera"@[4] == 't' && "reset-camera"@[5] == '-' && "reset-camera"@[6] == 'c' && "reset-camera"@[7] == 'a' && "reset-camera"@[8] == 'm' && "reset-camera"@[9] == 'e' && "reset-camera"@[10] == 'r' && "reset-camera"@[11] == 'a');
    reveal_strlit("reset-filters");
    assert("reset-filters"@.len() == 13 && "reset-filters"@[0] == 'r' && "reset-filters"@[1] == 'e' && "reset-filters"@[2] == 's' && "reset-filters"@[3] == 'e' && "reset-filters"@[4] == 't' && "reset-filters"@[5] == '-' && "reset-filters"@[6] == 'f' && "reset-filters"@[7] == 'i' && "reset-filters"@[8] == 'l' && "reset-filters"@[9] == 't' && "reset-filters"@[10] == 'e' && "reset-filters"@[11] == 'r' && "reset-filters"@[12] == 's');
    reveal_strlit("input_focused");
    assert("input_focused"@.len() == 13 && "input_focused"@[0] == 'i' && "input_focused"@[1] == 'n' && "input_focused"@[2] == 'p' && "input_focused"@[3] == 'u' && "input_focused"@[4] == 't' && "input_focused"@[5] == '_' && "input_focused"@[6] == 'f' && "input_focused"@[7] == 'o' && "input_focused"@[8] == 'c' && "input_focused"@[9] == 'u' && "input_focused"@[10] == 's' && "input_focused"@[11] == 'e' && "input_focused"@[12] == 'd');
    reveal_strlit("canvas_focused");
    assert("canvas_focused"@.len() == 14 && "canvas_focused"@[0] == 'c' && "canvas_focused"@[1] == 'a' && "canvas_focused"@[2] == 'n' && "canvas_focused"@[3] == 'v' && "canvas_focused"@[4] == 'a' && "canvas_focused"@[5] == 's' && "canvas_focused"@[6] == '_' && "canvas_focused"@[7] == 'f' && "canvas_focused"@[8] == 'o' && "canvas_focused"@[9] == 'c' && "canvas_focused"@[10] == 'u' && "canvas_focused"@[11] == 's' && "canvas_focused"@[12] == 'e' && "canvas_focused"@[13] == 'd');
    reveal_strlit("escape");
    assert("escape"@.len() == 6 && "escape"@[0] == 'e' && "escape"@[1] == 's' && "escape"@[2] == 'c' && "escape"@[3] == 'a' && "escape"@[4] == 'p' && "escape"@[5] == 'e');
    reveal_strlit("esc");
    assert("esc"@.len() == 3 && "esc"@[0] == 'e' && "esc"@[1] == 's' && "esc"@[2] == 'c');
    reveal_strlit("quit-simulation");
    assert("quit-simulation"@.len() == 15 && "quit-simulation"@[0] == 'q' && "quit-simulation"@[1] == 'u' && "quit-simulation"@[2] == 'i' && "quit-simulation"@[3] == 't' && "quit-simulation"@[4] == '-' && "quit-simulation"@[5] == 's' && "quit-simulation"@[6] == 'i' && "quit-simulation"@[7] == 'm' && "quit-simulation"@[8] == 'u' && "quit-simulation"@[9] == 'l' && "quit-simulation"@[10] == 'a' && "quit-simulation"@[11] == 't' && "quit-simulation"@[12] == 'i' && "quit-simulation"@[13] == 'o' && "quit-simulation"@[14] == 'n');
    reveal_strlit(" ");
    assert(" "@.len() == 1 && " "@[0] == ' ');
    reveal_strlit("space");
    assert("space"@.len() == 5 && "space"@[0] == 's' && "space"@[1] == 'p' && "space"@[2] == 'a' && "space"@[3] == 'c' && "space"@[4] == 'e');
    reveal_strlit("feature-close-panel");
    assert("feature-close-panel"@.len() == 19 && "feature-close-panel"@[0] == 'f' && "feature-close-panel"@[1] == 'e' && "feature-close-panel"@[2] == 'a' && "feature-close-panel"@[3] == 't' && "feature-close-panel"@[4] == 'u' && "feature-close-panel"@[5] == 'r' && "feature-close-panel"@[6] == 'e' && "feature-close-panel"@[7] == '-' && "feature-close-panel"@[8] == 'c' && "feature-close-panel"@[9] == 'l' && "feature-close-panel"@[10] == 'o' && "feature-close-panel"@[11] == 's' && "feature-close-panel"@[12] == 'e' && "feature-close-panel"@[13] == '-' && "feature-close-panel"@[14] == 'p' && "feature-close-panel"@[15] == 'a' && "feature-close-panel"@[16] == 'n' && "feature-close-panel"@[17] == 'e' && "feature-close-panel"@[18] == 'l');
    reveal_strlit("+");
    assert("+"@.len() == 1 && "+"@[0] == '+');
    reveal_strlit("-");
    assert("-"@.len() == 1 && "-"@[0] == '-');
    reveal_strlit("arrowleft");
    assert("arrowleft"@.len() == 9 && "arrowleft"@[0] == 'a' && "arrowleft"@[1] == 'r' && "arrowleft"@[2] == 'r' && "arrowleft"@[3] == 'o' && "arrowleft"@[4] == 'w' && "arrowleft"@[5] == 'l' && "arrowleft"@[6] == 'e' && "arrowleft"@[7] == 'f' && "arrowleft"@[8] == 't');
    reveal_strlit("left");
    assert("left"@.len() == 4 && "left"@[0] == 'l' && "left"@[1] == 'e' && "left"@[2] == 'f' && "left"@[3] == 't');
    reveal_strlit("\u{2190}");
    assert("\u{2190}"@.len() == 1 && "\u{2190}"@[0] == '\u{2190}');
    reveal_strlit("\u{25c0}");
    assert("\u{25c0}"@.len() == 1 && "\u{25c0}"@[0] == '\u{25c0}');
    reveal_strlit("arrowright");
    assert("arrowright"@.len() == 10 && "arrowright"@[0] == 'a' && "arrowright"@[1] == 'r' && "arrowright"@[2] == 'r' && "arrowright"@[3] == 'o' && "arrowright"@[4] == 'w' && "arrowright"@[5] == 'r' && "arrowright"@[6] == 'i' && "arrowright"@[7] == 'g' && "arrowright"@[8] == 'h' && "arrowright"@[9] == 't');
    reveal_strlit("right");
    assert("right"@.len() == 5 && "right"@[0] == 'r' && "right"@[1] == 'i' && "right"@[2] == 'g' && "right"@[3] == 'h' && "right"@[4] == 't');
    reveal_strlit("\u{2192}");
    assert("\u{2192}"@.len() == 1 && "\u{2192}"@[0] == '\u{2192}');
    reveal_strlit("\u{25b6}");
    assert("\u{25b6}"@.len() == 1 && "\u{25b6}"@[0] == '\u{25b6}');
    reveal_strlit("arrowup");
    assert("arrowup"@.len() == 7 && "arrowup"@[0] == 'a' && "arrowup"@[1] == 'r' && "arrowup"@[2] == 'r' && "arrowup"@[3] == 'o' && "arrowup"@[4] == 'w' && "arrowup"@[5] == 'u' && "arrowup"@[6] == 'p');
    reveal_strlit("up");
    assert("up"@.len() == 2 && "up"@[0] == 'u' && "up"@[1] == 'p');
    reveal_strlit("\u{2191}");
    assert("\u{2191}"@.len() == 1 && "\u{2191}"@[0] == '\u{2191}');
    reveal_strlit("\u{25b2}");
    assert("\u{25b2}"@.len() == 1 && "\u{25b2}"@[0] == '\u{25b2}');
    reveal_strlit("arrowdown");
    assert("arrowdown"@.len() == 9 && "arrowdown"@[0] == 'a' && "arrowdown"@[1] == 'r' && "arrowdown"@[2] == 'r' && "arrowdown"@[3] == 'o' && "arrowdown"@[4] == 'w' && "arrowdown"@[5] == 'd' && "arrowdown"@[6] == 'o' && "arrowdown"@[7] == 'w' && "arrowdown"@[8] == 'n');
    reveal_strlit("down");
    assert("down"@.len() == 4 && "down"@[0] == 'd' && "down"@[1] == 'o' && "down"@[2] == 'w' && "down"@[3] == 'n');
    reveal_strlit("\u{2193}");
    assert("\u{2193}"@.len() == 1 && "\u{2193}"@[0] == '\u{2193}');
    reveal_strlit("\u{25bc}");
    assert("\u{25bc}"@.len() == 1 && "\u{25bc}"@[0] == '\u{25bc}');
    reveal_strlit("a");
    assert("a"@.len() == 1 && "a"@[0] == 'a');
    reveal_strlit("d");
    assert("d"@.len() == 1 && "d"@[0] == 'd');
    reveal_strlit("w");
    assert("w"@.len() == 1 && "w"@[0] == 'w');
    reveal_strlit("s");
    assert("s"@.len() == 1 && "s"@[0] == 's');
    reveal_strlit("q");
    assert("q"@.len() == 1 && "q"@[0] == 'q');
    reveal_strlit("e");
    assert("e"@.len() == 1 && "e"@[0] == 'e');
}

/// The keys of the settings: the scaling steps, and the speeds, zoom, pixel width and
/// camera mode, each up with its key and down with Shift.
pub proof fn lemma_setting_key_bindings()
    ensures
        key_action("scaling-method-inc"@) == Some(BooleanAction::ScalingMethod(Boolean2DAction::Increase)),
        key_action("scaling-method-dec"@) == Some(BooleanAction::ScalingMethod(Boolean2DAction::Decrease)),
        key_action("custom-scaling-resolution-width-inc"@) == Some(BooleanAction::ScalingResolutionWidth(Boolean2DAction::Increase)),
        key_action("custom-scaling-resolution-width-dec"@) == Some(BooleanAction::ScalingResolutionWidth(Boolean2DAction::Decrease)),
        key_action("custom-scaling-resolution-height-inc"@) == Some(BooleanAction::ScalingResolutionHeight(Boolean2DAction::Increase)),
        key_action("custom-scaling-resolution-height-dec"@) == Some(BooleanAction::ScalingResolutionHeight(Boolean2DAction::Decrease)),
        key_action("custom-scaling-aspect-ratio-x-inc"@) == Some(BooleanAction::ScalingAspectRatioX(Boolean2DAction::Increase)),
        key_action("custom-scaling-aspect-ratio-x-dec"@) == Some(BooleanAction::ScalingAspectRatioX(Boolean2DAction::Decrease)),
        key_action("custom-scaling-aspect-ratio-y-inc"@) == Some(BooleanAction::ScalingAspectRatioY(Boolean2DAction::Increase)),
        key_action("custom-scaling-aspect-ratio-y-dec"@) == Some(BooleanAction::ScalingAspectRatioY(Boolean2DAction::Decrease)),
        key_action("f"@) == Some(BooleanAction::TranslationSpeed(Boolean2DAction::Increase)),
        key_action("move-speed-inc"@) == Some(BooleanAction::TranslationSpeed(Boolean2DAction::Increase)),
        key_action("shift+f"@) == Some(BooleanAction::TranslationSpeed(Boolean2DAction::Decrease)),
        key_action("move-speed-dec"@) == Some(BooleanAction::TranslationSpeed(Boolean2DAction::Decrease)),
        key_action("r"@) == Some(BooleanAction::FilterSpeed(Boolean2DAction::Increase)),
        key_action("pixel-speed-inc"@) == Some(BooleanAction::FilterSpeed(Boolean2DAction::Increase)),
        key_action("shift+r"@) == Some(BooleanAction::FilterSpeed(Boolean2DAction::Decrease)),
        key_action("pixel-speed-dec"@) == Some(BooleanAction::FilterSpeed(Boolean2DAction::Decrease)),
        key_action("turn-speed-inc"@) == Some(BooleanAction::TurnSpeed(Boolean2DAction::Increase)),
        key_action("turn-speed-dec"@) == Some(BooleanAction::TurnSpeed(Boolean2DAction::Decrease)),
        key_action("t"@) == Some(BooleanAction::ResetSpeeds),
        key_action("reset-speeds"@) == Some(BooleanAction::ResetSpeeds),
        key_action("camera-zoom-inc"@) == Some(BooleanAction::CameraZoom(Boolean2DAction::Increase)),
        key_action("camera-zoom-dec"@) == Some(BooleanAction::CameraZoom(Boolean2DAction::Decrease)),
        key_action("o"@) == Some(BooleanAction::PixelWidth(Boolean2DAction::Increase)),
        key_action("pixel-width-inc"@) == Some(BooleanAction::PixelWidth(Boolean2DAction::Increase)),
        key_action("shift+o"@) == Some(BooleanAction::PixelWidth(Boolean2DAction::Decrease)),
        key_action("pixel-width-dec"@) == Some(BooleanAction::PixelWidth(Boolean2DAction::Decrease)),
        key_action("g"@) == Some(BooleanAction::NextCameraMovementMode(Boolean2DAction::Increase)),
        key_action("camera-movement-mode-inc"@) == Some(BooleanAction::NextCameraMovementMode(Boolean2DAction::Increase)),
        key_action("shift+g"@) == Some(BooleanAction::NextCameraMovementMode(Boolean2DAction::Decrease)),
        key_action("camera-movement-mode-dec"@) == Some(BooleanAction::NextCameraMovementMode(Boolean2DAction::Decrease)),
{
    reveal_strlit("mouse_click");
    assert("mouse_click"@.len() == 11 && "mouse_click"@[0] == 'm' && "mouse_click"@[1] == 'o' && "mouse_click"@[2] == 'u' && "mouse_click"@[3] == 's' && "mouse_click"@[4] == 'e' && "mouse_click"@[5] == '_' && "mouse_click"@[6] == 'c' && "mouse_click"@[7] == 'l' && "mouse_click"@[8] == 'i' && "mouse_click"@[9] == 'c' && "mouse_click"@[10] == 'k');
    reveal_strlit("shift");
    assert("shift"@.len() == 5 && "shift"@[0] == 's' && "shift"@[1] == 'h' && "shift"@[2] == 'i' && "shift"@[3] == 'f' && "shift"@[4] == 't');
    reveal_strlit("left shift");
    assert("left shift"@.len() == 10 && "left shift"@[0] == 'l' && "left shift"@[1] == 'e' && "left shift"@[2] == 'f' && "left shift"@[3] == 't' && "left shift"@[4] == ' ' && "left shift"@[5] == 's' && "left shift"@[6] == 'h' && "left shift"@[7] == 'i' && "left shift"@[8] == 'f' && "left shift"@[9] == 't');
    reveal_strlit("right shift");
    assert("right shift"@.len() == 11 && "right shift"@[0] == 'r' && "right shift"@[1] == 'i' && "right shift"@[2] == 'g' && "right shift"@[3] == 'h' && "right shift"@[4] == 't' && "right shift"@[5] == ' ' && "right shift"@[6] == 's' && "right shift"@[7] == 'h' && "right shift"@[8] == 'i' && "right shift"@[9] == 'f' && "right shift"@[10] == 't');
    reveal_strlit("control");
    assert("control"@.len() == 7 && "control"@[0] == 'c' && "control"@[1] == 'o' && "control"@[2] == 'n' && "control"@[3] == 't' && "control"@[4] == 'r' && "control"@[5] == 'o' && "control"@[6] == 'l');
    reveal_strlit("alt");
    assert("alt"@.len() == 3 && "alt"@[0] == 'a' && "alt"@[1] == 'l' && "alt"@[2] == 't');
    reveal_strlit("f4");
    assert("f4"@.len() == 2 && "f4"@[0] == 'f' && "f4"@[1] == '4');
    reveal_strlit("capture-framebuffer");
    assert("capture-framebuffer"@.len() == 19 && "capture-framebuffer"@[0] == 'c' && "capture-framebuffer"@[1] == 'a' && "capture-framebuffer"@[2] == 'p' && "capture-framebuffer"@[3] == 't' && "capture-framebuffer"@[4] == 'u' && "capture-framebuffer"@[5] == 'r' && "capture-framebuffer"@[6] == 'e' && "capture-framebuffer"@[7] == '-' && "capture-framebuffer"@[8] == 'f' && "capture-framebuffer"@[9] == 'r' && "capture-framebuffer"@[10] == 'a' && "capture-framebuffer"@[11] == 'm' && "capture-framebuffer"@[12] == 'e' && "capture-framebuffer"@[13] == 'b' && "capture-framebuffer"@[14] == 'u' && "capture-framebuffer"@[15] == 'f' && "capture-framebuffer"@[16] == 'f' && "capture-framebuffer"@[17] == 'e' && "capture-framebuffer"@[18] == 'r');
    reveal_strlit("reset-camera");
    assert("reset-camera"@.len() == 12 && "reset-camera"@[0] == 'r' && "reset-camera"@[1] == 'e' && "reset-camera"@[2] == 's' && "reset-camera"@[3] == 'e' && "reset-camera"@[4] == 't' && "reset-camera"@[5] == '-' && "reset-camera"@[6] == 'c' && "reset-camera"@[7] == 'a' && "reset-camera"@[8] == 'm' && "reset-camera"@[9] == 'e' && "reset-camera"@[10] == 'r' && "reset-camera"@[11] == 'a');
    reveal_strlit("reset-filters");
    assert("reset-filters"@.len() == 13 && "reset-filters"@[0] == 'r' && "reset-filters"@[1] == 'e' && "reset-filters"@[2] == 's' && "reset-filters"@[3] == 'e' && "reset-filters"@[4] == 't' && "reset-filters"@[5] == '-' && "reset-filters"@[6] == 'f' && "reset-filters"@[7] == 'i' && "reset-filters"@[8] == 'l' && "reset-filters"@[9] == 't' && "reset-filters"@[10] == 'e' && "reset-filters"@[11] == 'r' && "reset-filters"@[12] == 's');
    reveal_strlit("input_focused");
    assert("input_focused"@.len() == 13 && "input_focused"@[0] == 'i' && "input_focused"@[1] == 'n' && "input_focused"@[2] == 'p' && "input_focused"@[3] == 'u' && "input_focused"@[4] == 't' && "input_focused"@[5] == '_' && "input_focused"@[6] == 'f' && "input_focused"@[7] == 'o' && "input_focused"@[8] == 'c' && "input_focused"@[9] == 'u' && "input_focused"@[10] == 's' && "input_focused"@[11] == 'e' && "input_focused"@[12] == 'd');
    reveal_strlit("canvas_focused");
    assert("canvas_focused"@.len() == 14 && "canvas_focused"@[0] == 'c' && "canvas_focused"@[1] == 'a' && "canvas_focused"@[2] == 'n' && "canvas_focused"@[3] == 'v' && "canvas_focused"@[4] == 'a' && "canvas_focused"@[5] == 's' && "canvas_focused"@[6] == '_' && "canvas_focused"@[7] == 'f' && "canvas_focused"@[8] == 'o' && "canvas_focused"@[9] == 'c' && "canvas_focused"@[10] == 'u' && "canvas_focused"@[11] == 's' && "canvas_focused"@[12] == 'e' && "canvas_focused"@[13] == 'd');
    reveal_strlit("escape");
    assert("escape"@.len() == 6 && "escape"@[0] == 'e' && "escape"@[1] == 's' && "escape"@[2] == 'c' && "escape"@[3] == 'a' && "escape"@[4] == 'p' && "escape"@[5] == 'e');
    reveal_strlit("esc");
    assert("esc"@.len() == 3 && "esc"@[0] == 'e' && "esc"@[1] == 's' && "esc"@[2] == 'c');
    reveal_strlit("quit-simulation");
    assert("quit-simulation"@.len() == 15 && "quit-simulation"@[0] == 'q' && "quit-simulation"@[1] == 'u' && "quit-simulation"@[2] == 'i' && "quit-simulation"@[3] == 't' && "quit-simulation"@[4] == '-' && "quit-simulation"@[5] == 's' && "quit-simulation"@[6] == 'i' && "quit-simulation"@[7] == 'm' && "quit-simulation"@[8] == 'u' && "quit-simulation"@[9] == 'l' && "quit-simulation"@[10] == 'a' && "quit-simulation"@[11] == 't' && "quit-simulation"@[12] == 'i' && "quit-simulation"@[13] == 'o' && "quit-simulation"@[14] == 'n');
    reveal_strlit(" ");
    assert(" "@.len() == 1 && " "@[0] == ' ');
    reveal_strlit("space");
    assert("space"@.len() == 5 && "space"@[0] == 's' && "space"@[1] == 'p' && "space"@[2] == 'a' && "space"@[3] == 'c' && "space"@[4] == 'e');
    reveal_strlit("feature-close-panel");
    assert("feature-close-panel"@.len() == 19 && "feature-close-panel"@[0] == 'f' && "feature-close-panel"@[1] == 'e' && "feature-close-panel"@[2] == 'a' && "feature-close-panel"@[3] == 't' && "feature-close-panel"@[4] == 'u' && "feature-close-panel"@[5] == 'r' && "feature-close-panel"@[6] == 'e' && "feature-close-panel"@[7] == '-' && "feature-close-panel"@[8] == 'c' && "feature-close-panel"@[9] == 'l' && "feature-close-panel"@[10] == 'o' && "feature-close-panel"@[11] == 's' && "feature-close-panel"@[12] == 'e' && "feature-close-panel"@[13] == '-' && "feature-close-panel"@[14] == 'p' && "feature-close-panel"@[15] == 'a' && "feature-close-panel"@[16] == 'n' && "feature-close-panel"@[17] == 'e' && "feature-close-panel"@[18] == 'l');
    reveal_strlit("+");
    assert("+"@.len() == 1 && "+"@[0] == '+');
    reveal_strlit("-");
    assert("-"@.len() == 1 && "-"@[0] == '-');
    reveal_strlit("arrowleft");
    assert("arrowleft"@.len() == 9 && "arrowleft"@[0] == 'a' && "arrowleft"@[1] == 'r' && "arrowleft"@[2] == 'r' && "arrowleft"@[3] == 'o' && "arrowleft"@[4] == 'w' && "arrowleft"@[5] == 'l' && "arrowleft"@[6] == 'e' && "arrowleft"@[7] == 'f' && "arrowleft"@[8] == 't');
    reveal_strlit("left");
    assert("left"@.len() == 4 && "left"@[0] == 'l' && "left"@[1] == 'e' && "left"@[2] == 'f' && "left"@[3] == 't');
    reveal_strlit("\u{2190}");
    assert("\u{2190}"@.len() == 1 && "\u{2190}"@[0] == '\u{2190}');
    reveal_strlit("\u{25c0}");
    assert("\u{25c0}"@.len() == 1 && "\u{25c0}"@[0] == '\u{25c0}');
    reveal_strlit("arrowright");
    assert("arrowright"@.len() == 10 && "arrowright"@[0] == 'a' && "arrowright"@[1] == 'r' && "arrowright"@[2] == 'r' && "arrowright"@[3] == 'o' && "arrowright"@[4] == 'w' && "arrowright"@[5] == 'r' && "arrowright"@[6] == 'i' && "arrowright"@[7] == 'g' && "arrowright"@[8] == 'h' && "arrowright"@[9] == 't');
    reveal_strlit("right");
    assert("right"@.len() == 5 && "right"@[0] == 'r' && "right"@[1] == 'i' && "right"@[2] == 'g' && "right"@[3] == 'h' && "right"@[4] == 't');
    reveal_strlit("\u{2192}");
    assert("\u{2192}"@.len() == 1 && "\u{2192}"@[0] == '\u{2192}');
    reveal_strlit("\u{25b6}");
    assert("\u{25b6}"@.len() == 1 && "\u{25b6}"@[0] == '\u{25b6}');
    reveal_strlit("arrowup");
    assert("arrowup"@.len() == 7 && "arrowup"@[0] == 'a' && "arrowup"@[1] == 'r' && "arrowup"@[2] == 'r' && "arrowup"@[3] == 'o' && "arrowup"@[4] == 'w' && "arrowup"@[5] == 'u' && "arrowup"@[6] == 'p');
    reveal_strlit("up");
    assert("up"@.len() == 2 && "up"@[0] == 'u' && "up"@[1] == 'p');
    reveal_strlit("\u{2191}");
    assert("\u{2191}"@.len() == 1 && "\u{2191}"@[0] == '\u{2191}');
    reveal_strlit("\u{25b2}");
    assert("\u{25b2}"@.len() == 1 && "\u{25b2}"@[0] == '\u{25b2}');
    reveal_strlit("arrowdown");
    assert("arrowdown"@.len() == 9 && "arrowdown"@[0] == 'a' && "arrowdown"@[1] == 'r' && "arrowdown"@[2] == 'r' && "arrowdown"@[3] == 'o' && "arrowdown"@[4] == 'w' && "arrowdown"@[5] == 'd' && "arrowdown"@[6] == 'o' && "arrowdown"@[7] == 'w' && "arrowdown"@[8] == 'n');
    reveal_strlit("down");
    assert("down"@.len() == 4 && "down"@[0] == 'd' && "down"@[1] == 'o' && "down"@[2] == 'w' && "down"@[3] == 'n');
    reveal_strlit("\u{2193}");
    assert("\u{2193}"@.len() == 1 && "\u{2193}"@[0] == '\u{2193}');
    reveal_strlit("\u{25bc}");
    assert("\u{25bc}"@.len() == 1 && "\u{25bc}"@[0] == '\u{25bc}');
    reveal_strlit("a");
    assert("a"@.len() == 1 && "a"@[0] == 'a');
    reveal_strlit("d");
    assert("d"@.len() == 1 && "d"@[0] == 'd');
    reveal_strlit("w");
    assert("w"@.len() == 1 && "w"@[0] == 'w');
    reveal_strlit("s");
    assert("s"@.len() == 1 && "s"@[0] == 's');
    reveal_strlit("q");
    assert("q"@.len() == 1 && "q"@[0] == 'q');
    reveal_strlit("e");
    assert("e"@.len() == 1 && "e"@[0] == 'e');
    reveal_strlit("scaling-method-inc");
    assert("scaling-method-inc"@.len() == 18 && "scaling-method-inc"@[0] == 's' && "scaling-method-inc"@[1] == 'c' && "scaling-method-inc"@[2] == 'a' && "scaling-method-inc"@[3] == 'l' && "scaling-method-inc"@[4] == 'i' && "scaling-method-inc"@[5] == 'n' && "scaling-method-inc"@[6] == 'g' && "scaling-method-inc"@[7] == '-' && "scaling-method-inc"@[8] == 'm' && "scaling-method-inc"@[9] == 'e' && "scaling-method-inc"@[10] == 't' && "scaling-method-inc"@[11] == 'h' && "scaling-method-inc"@[12] == 'o' && "scaling-method-inc"@[13] == 'd' && "scaling-method-inc"@[14] == '-' && "scaling-method-inc"@[15] == 'i' && "scaling-method-inc"@[16] == 'n' && "scaling-method-inc"@[17] == 'c');
    reveal_strlit("scaling-method-dec");
    assert("scaling-method-dec"@.len() == 18 && "scaling-method-dec"@[0] == 's' && "scaling-method-dec"@[1] == 'c' && "scaling-method-dec"@[2] == 'a' && "scaling-method-dec"@[3] == 'l' && "scaling-method-dec"@[4] == 'i' && "scaling-method-dec"@[5] == 'n' && "scaling-method-dec"@[6] == 'g' && "scaling-method-dec"@[7] == '-' && "scaling-method-dec"@[8] == 'm' && "scaling-method-dec"@[9] == 'e' && "scaling-method-dec"@[10] == 't' && "scaling-method-dec"@[11] == 'h' && "scaling-method-dec"@[12] == 'o' && "scaling-method-dec"@[13] == 'd' && "scaling-method-dec"@[14] == '-' && "scaling-method-dec"@[15] == 'd' && "scaling-method-dec"@[16] == 'e' && "scaling-method-dec"@[17] == 'c');
    reveal_strlit("custom-scaling-resolution-width-inc");
    assert("custom-scaling-resolution-width-inc"@.len() == 35 && "custom-scaling-resolution-width-inc"@[0] == 'c' && "custom-scaling-resolution-width-inc"@[1] == 'u' && "custom-scaling-resolution-width-inc"@[2] == 's' && "custom-scaling-resolution-width-inc"@[3] == 't' && "custom-scaling-resolution-width-inc"@[4] == 'o' && "custom-scaling-resolution-width-inc"@[5] == 'm' && "custom-scaling-resolution-width-inc"@[6] == '-' && "custom-scaling-resolution-width-inc"@[7] == 's' && "custom-scaling-resolution-width-inc"@[8] == 'c' && "custom-scaling-resolution-width-inc"@[9] == 'a' && "custom-scaling-resolution-width-inc"@[10] == 'l' && "custom-scaling-resolution-width-inc"@[11] == 'i' && "custom-scaling-resolution-width-inc"@[12] == 'n' && "custom-scaling-resolution-width-inc"@[13] == 'g' && "custom-scaling-resolution-width-inc"@[14] == '-' && "custom-scaling-resolution-width-inc"@[15] == 'r' && "custom-scaling-resolution-width-inc"@[16] == 'e' && "custom-scaling-resolution-width-inc"@[17] == 's' && "custom-scaling-resolution-width-inc"@[18] == 'o' && "custom-scaling-resolution-width-inc"@[19] == 'l' && "custom-scaling-resolution-width-inc"@[20] == 'u' && "custom-scaling-resolution-width-inc"@[21] == 't' && "custom-scaling-resolution-width-inc"@[22] == 'i' && "custom-scaling-resolution-width-inc"@[23] == 'o' && "custom-scaling-resolution-width-inc"@[24] == 'n' && "custom-scaling-resolution-width-inc"@[25] == '-' && "custom-scaling-resolution-width-inc"@[26] == 'w' && "custom-scaling-resolution-width-inc"@[27] == 'i' && "custom-scaling-resolution-width-inc"@[28] == 'd' && "custom-scaling-resolution-width-inc"@[29] == 't' && "custom-scaling-resolution-width-inc"@[30] == 'h' && "custom-scaling-resolution-width-inc"@[31] == '-' && "custom-scaling-resolution-width-inc"@[32] == 'i' && "custom-scaling-resolution-width-inc"@[33] == 'n' && "custom-scaling-resolution-width-inc"@[34] == 'c');
    reveal_strlit("custom-scaling-resolution-width-dec");
    assert("custom-scaling-resolution-width-dec"@.len() == 35 && "custom-scaling-resolution-width-dec"@[0] == 'c' && "custom-scaling-resolution-width-dec"@[1] == 'u' && "custom-scaling-resolution-width-dec"@[2] == 's' && "custom-scaling-resolution-width-dec"@[3] == 't' && "custom-scaling-resolution-width-dec"@[4] == 'o' && "custom-scaling-resolution-width-dec"@[5] == 'm' && "custom-scaling-resolution-width-dec"@[6] == '-' && "custom-scaling-resolution-width-dec"@[7] == 's' && "custom-scaling-resolution-width-dec"@[8] == 'c' && "custom-scaling-resolution-width-dec"@[9] == 'a' && "custom-scaling-resolution-width-dec"@[10] == 'l' && "custom-scaling-resolution-width-dec"@[11] == 'i' && "custom-scaling-resolution-width-dec"@[12] == 'n' && "custom-scaling-resolution-width-dec"@[13] == 'g' && "custom-scaling-resolution-width-dec"@[14] == '-' && "custom-scaling-resolution-width-dec"@[15] == 'r' && "custom-scaling-resolution-width-dec"@[16] == 'e' && "custom-scaling-resolution-width-dec"@[17] == 's' && "custom-scaling-resolution-width-dec"@[18] == 'o' && "custom-scaling-resolution-width-dec"@[19] == 'l' && "custom-scaling-resolution-width-dec"@[20] == 'u' && "custom-scaling-resolution-width-dec"@[21] == 't' && "custom-scaling-resolution-width-dec"@[22] == 'i' && "custom-scaling-resolution-width-dec"@[23] == 'o' && "custom-scaling-resolution-width-dec"@[24] == 'n' && "custom-scaling-resolution-width-dec"@[25] == '-' && "custom-scaling-resolution-width-dec"@[26] == 'w' && "custom-scaling-resolution-width-dec"@[27] == 'i' && "custom-scaling-resolution-width-dec"@[28] == 'd' && "custom-scaling-resolution-width-dec"@[29] == 't' && "custom-scaling-resolution-width-dec"@[30] == 'h' && "custom-scaling-resolution-width-dec"@[31] == '-' && "custom-scaling-resolution-width-dec"@[32] == 'd' && "custom-scaling-resolution-width-dec"@[33] == 'e' && "custom-scaling-resolution-width-dec"@[34] == 'c');
    reveal_strlit("custom-scaling-resolution-height-inc");
    assert("custom-scaling-resolution-height-inc"@.len() == 36 && "custom-scaling-resolution-height-inc"@[0] == 'c' && "custom-scaling-resolution-height-inc"@[1] == 'u' && "custom-scaling-resolution-height-inc"@[2] == 's' && "custom-scaling-resolution-height-inc"@[3] == 't' && "custom-scaling-resolution-height-inc"@[4] == 'o' && "custom-scaling-resolution-height-inc"@[5] == 'm' && "custom-scaling-resolution-height-inc"@[6] == '-' && "custom-scaling-resolution-height-inc"@[7] == 's' && "custom-scaling-resolution-height-inc"@[8] == 'c' && "custom-scaling-resolution-height-inc"@[9] == 'a' && "custom-scaling-resolution-height-inc"@[10] == 'l' && "custom-scaling-resolution-height-inc"@[11] == 'i' && "custom-scaling-resolution-height-inc"@[12] == 'n' && "custom-scaling-resolution-height-inc"@[13] == 'g' && "custom-scaling-resolution-height-inc"@[14] == '-' && "custom-scaling-resolution-height-inc"@[15] == 'r' && "custom-scaling-resolution-height-inc"@[16] == 'e' && "custom-scaling-resolution-height-inc"@[17] == 's' && "custom-scaling-resolution-height-inc"@[18] == 'o' && "custom-scaling-resolution-height-inc"@[19] == 'l' && "custom-scaling-resolution-height-inc"@[20] == 'u' && "custom-scaling-resolution-height-inc"@[21] == 't' && "custom-scaling-resolution-height-inc"@[22] == 'i' && "custom-scaling-resolution-height-inc"@[23] == 'o' && "custom-scaling-resolution-height-inc"@[24] == 'n' && "custom-scaling-resolution-height-inc"@[25] == '-' && "custom-scaling-resolution-height-inc"@[26] == 'h' && "custom-scaling-resolution-height-inc"@[27] == 'e' && "custom-scaling-resolution-height-inc"@[28] == 'i' && "custom-scaling-resolution-height-inc"@[29] == 'g' && "custom-scaling-resolution-height-inc"@[30] == 'h' && "custom-scaling-resolution-height-inc"@[31] == 't' && "custom-scaling-resolution-height-inc"@[32] == '-' && "custom-scaling-resolution-height-inc"@[33] == 'i' && "custom-scaling-resolution-height-inc"@[34] == 'n' && "custom-scaling-resolution-height-inc"@[35] == 'c');
    reveal_strlit("custom-scaling-resolution-height-dec");
    assert("custom-scaling-resolution-height-dec"@.len() == 36 && "custom-scaling-resolution-height-dec"@[0] == 'c' && "custom-scaling-resolution-height-dec"@[1] == 'u' && "custom-scaling-resolution-height-dec"@[2] == 's' && "custom-scaling-resolution-height-dec"@[3] == 't' && "custom-scaling-resolution-height-dec"@[4] == 'o' && "custom-scaling-resolution-height-dec"@[5] == 'm' && "custom-scaling-resolution-height-dec"@[6] == '-' && "custom-scaling-resolution-height-dec"@[7] == 's' && "custom-scaling-resolution-height-dec"@[8] == 'c' && "custom-scaling-resolution-height-dec"@[9] == 'a' && "custom-scaling-resolution-height-dec"@[10] == 'l' && "custom-scaling-resolution-height-dec"@[11] == 'i' && "custom-scaling-resolution-height-dec"@[12] == 'n' && "custom-scaling-resolution-height-dec"@[13] == 'g' && "custom-scaling-resolution-height-dec"@[14] == '-' && "custom-scaling-resolution-height-dec"@[15] == 'r' && "custom-scaling-resolution-height-dec"@[16] == 'e' && "custom-scaling-resolution-height-dec"@[17] == 's' && "custom-scaling-resolution-height-dec"@[18] == 'o' && "custom-scaling-resolution-height-dec"@[19] == 'l' && "custom-scaling-resolution-height-dec"@[20] == 'u' && "custom-scaling-resolution-height-dec"@[21] == 't' && "custom-scaling-resolution-height-dec"@[22] == 'i' && "custom-scaling-resolution-height-dec"@[23] == 'o' && "custom-scaling-resolution-height-dec"@[24] == 'n' && "custom-scaling-resolution-height-dec"@[25] == '-' && "custom-scaling-resolution-height-dec"@[26] == 'h' && "custom-scaling-resolution-height-dec"@[27] == 'e' && "custom-scaling-resolution-height-dec"@[28] == 'i' && "custom-scaling-resolution-height-dec"@[29] == 'g' && "custom-scaling-resolution-height-dec"@[30] == 'h' && "custom-scaling-resolution-height-dec"@[31] == 't' && "custom-scaling-resolution-height-dec"@[32] == '-' && "custom-scaling-resolution-height-dec"@[33] == 'd' && "custom-scaling-resolution-height-dec"@[34] == 'e' && "custom-scaling-resolution-height-dec"@[35] == 'c');
    reveal_strlit("custom-scaling-aspect-ratio-x-inc");
    assert("custom-scaling-aspect-ratio-x-inc"@.len() == 33 && "custom-scaling-aspect-ratio-x-inc"@[0] == 'c' && "custom-scaling-aspect-ratio-x-inc"@[1] == 'u' && "custom-scaling-aspect-ratio-x-inc"@[2] == 's' && "custom-scaling-aspect-ratio-x-inc"@[3] == 't' && "custom-scaling-aspect-ratio-x-inc"@[4] == 'o' && "custom-scaling-aspect-ratio-x-inc"@[5] == 'm' && "custom-scaling-aspect-ratio-x-inc"@[6] == '-' && "custom-scaling-aspect-ratio-x-inc"@[7] == 's' && "custom-scaling-aspect-ratio-x-inc"@[8] == 'c' && "custom-scaling-aspect-ratio-x-inc"@[9] == 'a' && "custom-scaling-aspect-ratio-x-inc"@[10] == 'l' && "custom-scaling-aspect-ratio-x-inc"@[11] == 'i' && "custom-scaling-aspect-ratio-x-inc"@[12] == 'n' && "custom-scaling-aspect-ratio-x-inc"@[13] == 'g' && "custom-scaling-aspect-ratio-x-inc"@[14] == '-' && "custom-scaling-aspect-ratio-x-inc"@[15] == 'a' && "custom-scaling-aspect-ratio-x-inc"@[16] == 's' && "custom-scaling-aspect-ratio-x-inc"@[17] == 'p' && "custom-scaling-aspect-ratio-x-inc"@[18] == 'e' && "custom-scaling-aspect-ratio-x-inc"@[19] == 'c' && "custom-scaling-aspect-ratio-x-inc"@[20] == 't' && "custom-scaling-aspect-ratio-x-inc"@[21] == '-' && "custom-scaling-aspect-ratio-x-inc"@[22] == 'r' && "custom-scaling-aspect-ratio-x-inc"@[23] == 'a' && "custom-scaling-aspect-ratio-x-inc"@[24] == 't' && "custom-scaling-aspect-ratio-x-inc"@[25] == 'i' && "custom-scaling-aspect-ratio-x-inc"@[26] == 'o' && "custom-scaling-aspect-ratio-x-inc"@[27] == '-' && "custom-scaling-aspect-ratio-x-inc"@[28] == 'x' && "custom-scaling-aspect-ratio-x-inc"@[29] == '-' && "custom-scaling-aspect-ratio-x-inc"@[30] == 'i' && "custom-scaling-aspect-ratio-x-inc"@[31] == 'n' && "custom-scaling-aspect-ratio-x-inc"@[32] == 'c');
    reveal_strlit("custom-scaling-aspect-ratio-x-dec");
    assert("custom-scaling-aspect-ratio-x-dec"@.len() == 33 && "custom-scaling-aspect-ratio-x-dec"@[0] == 'c' && "custom-scaling-aspect-ratio-x-dec"@[1] == 'u' && "custom-scaling-aspect-ratio-x-dec"@[2] == 's' && "custom-scaling-aspect-ratio-x-dec"@[3] == 't' && "custom-scaling-aspect-ratio-x-dec"@[4] == 'o' && "custom-scaling-aspect-ratio-x-dec"@[5] == 'm' && "custom-scaling-aspect-ratio-x-dec"@[6] == '-' && "custom-scaling-aspect-ratio-x-dec"@[7] == 's' && "custom-scaling-aspect-ratio-x-dec"@[8] == 'c' && "custom-scaling-aspect-ratio-x-dec"@[9] == 'a' && "custom-scaling-aspect-ratio-x-dec"@[10] == 'l' && "custom-scaling-aspect-ratio-x-dec"@[11] == 'i' && "custom-scaling-aspect-ratio-x-dec"@[12] == 'n' && "custom-scaling-aspect-ratio-x-dec"@[13] == 'g' && "custom-scaling-aspect-ratio-x-dec"@[14] == '-' && "custom-scaling-aspect-ratio-x-dec"@[15] == 'a' && "custom-scaling-aspect-ratio-x-dec"@[16] == 's' && "custom-scaling-aspect-ratio-x-dec"@[17] == 'p' && "custom-scaling-aspect-ratio-x-dec"@[18] == 'e' && "custom-scaling-aspect-ratio-x-dec"@[19] == 'c' && "custom-scaling-aspect-ratio-x-dec"@[20] == 't' && "custom-scaling-aspect-ratio-x-dec"@[21] == '-' && "custom-scaling-aspect-ratio-x-dec"@[22] == 'r' && "custom-scaling-aspect-ratio-x-dec"@[23] == 'a' && "custom-scaling-aspect-ratio-x-dec"@[24] == 't' && "custom-scaling-aspect-ratio-x-dec"@[25] == 'i' && "custom-scaling-aspect-ratio-x-dec"@[26] == 'o' && "custom-scaling-aspect-ratio-x-dec"@[27] == '-' && "custom-scaling-aspect-ratio-x-dec"@[28] == 'x' && "custom-scaling-aspect-ratio-x-dec"@[29] == '-' && "custom-scaling-aspect-ratio-x-dec"@[30] == 'd' && "custom-scaling-aspect-ratio-x-dec"@[31] == 'e' && "custom-scaling-aspect-ratio-x-dec"@[32] == 'c');
    reveal_strlit("custom-scaling-aspect-ratio-y-inc");
    assert("custom-scaling-aspect-ratio-y-inc"@.len() == 33 && "custom-scaling-aspect-ratio-y-inc"@[0] == 'c' && "custom-scaling-aspect-ratio-y-inc"@[1] == 'u' && "custom-scaling-aspect-ratio-y-inc"@[2] == 's' && "custom-scaling-aspect-ratio-y-inc"@[3] == 't' && "custom-scaling-aspect-ratio-y-inc"@[4] == 'o' && "custom-scaling-aspect-ratio-y-inc"@[5] == 'm' && "custom-scaling-aspect-ratio-y-inc"@[6] == '-' && "custom-scaling-aspect-ratio-y-inc"@[7] == 's' && "custom-scaling-aspect-ratio-y-inc"@[8] == 'c' && "custom-scaling-aspect-ratio-y-inc"@[9] == 'a' && "custom-scaling-aspect-ratio-y-inc"@[10] == 'l' && "custom-scaling-aspect-ratio-y-inc"@[11] == 'i' && "custom-scaling-aspect-ratio-y-inc"@[12] == 'n' && "custom-scaling-aspect-ratio-y-inc"@[13] == 'g' && "custom-scaling-aspect-ratio-y-inc"@[14] == '-' && "custom-scaling-aspect-ratio-y-inc"@[15] == 'a' && "custom-scaling-aspect-ratio-y-inc"@[16] == 's' && "custom-scaling-aspect-ratio-y-inc"@[17] == 'p' && "custom-scaling-aspect-ratio-y-inc"@[18] == 'e' && "custom-scaling-aspect-ratio-y-inc"@[19] == 'c' && "custom-scaling-aspect-ratio-y-inc"@[20] == 't' && "custom-scaling-aspect-ratio-y-inc"@[21] == '-' && "custom-scaling-aspect-ratio-y-inc"@[22] == 'r' && "custom-scaling-aspect-ratio-y-inc"@[23] == 'a' && "custom-scaling-aspect-ratio-y-inc"@[24] == 't' && "custom-scaling-aspect-ratio-y-inc"@[25] == 'i' && "custom-scaling-aspect-ratio-y-inc"@[26] == 'o' && "custom-scaling-aspect-ratio-y-inc"@[27] == '-' && "custom-scaling-aspect-ratio-y-inc"@[28] == 'y' && "custom-scaling-aspect-ratio-y-inc"@[29] == '-' && "custom-scaling-aspect-ratio-y-inc"@[30] == 'i' && "custom-scaling-aspect-ratio-y-inc"@[31] == 'n' && "custom-scaling-aspect-ratio-y-inc"@[32] == 'c');
    reveal_strlit("custom-scaling-aspect-ratio-y-dec");
    assert("custom-scaling-aspect-ratio-y-dec"@.len() == 33 && "custom-scaling-aspect-ratio-y-dec"@[0] == 'c' && "custom-scaling-aspect-ratio-y-dec"@[1] == 'u' && "custom-scaling-aspect-ratio-y-dec"@[2] == 's' && "custom-scaling-aspect-ratio-y-dec"@[3] == 't' && "custom-scaling-aspect-ratio-y-dec"@[4] == 'o' && "custom-scaling-aspect-ratio-y-dec"@[5] == 'm' && "custom-scaling-aspect-ratio-y-dec"@[6] == '-' && "custom-scaling-aspect-ratio-y-dec"@[7] == 's' && "custom-scaling-aspect-ratio-y-dec"@[8] == 'c' && "custom-scaling-aspect-ratio-y-dec"@[9] == 'a' && "custom-scaling-aspect-ratio-y-dec"@[10] == 'l' && "custom-scaling-aspect-ratio-y-dec"@[11] == 'i' && "custom-scaling-aspect-ratio-y-dec"@[12] == 'n' && "custom-scaling-aspect-ratio-y-dec"@[13] == 'g' && "custom-scaling-aspect-ratio-y-dec"@[14] == '-' && "custom-scaling-aspect-ratio-y-dec"@[15] == 'a' && "custom-scaling-aspect-ratio-y-dec"@[16] == 's' && "custom-scaling-aspect-ratio-y-dec"@[17] == 'p' && "custom-scaling-aspect-ratio-y-dec"@[18] == 'e' && "custom-scaling-aspect-ratio-y-dec"@[19] == 'c' && "custom-scaling-aspect-ratio-y-dec"@[20] == 't' && "custom-scaling-aspect-ratio-y-dec"@[21] == '-' && "custom-scaling-aspect-ratio-y-dec"@[22] == 'r' && "custom-scaling-aspect-ratio-y-dec"@[23] == 'a' && "custom-scaling-aspect-ratio-y-dec"@[24] == 't' && "custom-scaling-aspect-ratio-y-dec"@[25] == 'i' && "custom-scaling-aspect-ratio-y-dec"@[26] == 'o' && "custom-scaling-aspect-ratio-y-dec"@[27] == '-' && "custom-scaling-aspect-ratio-y-dec"@[28] == 'y' && "custom-scaling-aspect-ratio-y-dec"@[29] == '-' && "custom-scaling-aspect-ratio-y-dec"@[30] == 'd' && "custom-scaling-aspect-ratio-y-dec"@[31] == 'e' && "custom-scaling-aspect-ratio-y-dec"@[32] == 'c');
    reveal_strlit("f");
    assert("f"@.len() == 1 && "f"@[0] == 'f');
    reveal_strlit("move-speed-inc");
    assert("move-speed-inc"@.len() == 14 && "move-speed-inc"@[0] == 'm' && "move-speed-inc"@[1] == 'o' && "move-speed-inc"@[2] == 'v' && "move-speed-inc"@[3] == 'e' && "move-speed-inc"@[4] == '-' && "move-speed-inc"@[5] == 's' && "move-speed-inc"@[6] == 'p' && "move-speed-inc"@[7] == 'e' && "move-speed-inc"@[8] == 'e' && "move-speed-inc"@[9] == 'd' && "move-speed-inc"@[10] == '-' && "move-speed-inc"@[11] == 'i' && "move-speed-inc"@[12] == 'n' && "move-speed-inc"@[13] == 'c');
    reveal_strlit("shift+f");
    assert("shift+f"@.len() == 7 && "shift+f"@[0] == 's' && "shift+f"@[1] == 'h' && "shift+f"@[2] == 'i' && "shift+f"@[3] == 'f' && "shift+f"@[4] == 't' && "shift+f"@[5] == '+' && "shift+f"@[6] == 'f');
    reveal_strlit("move-speed-dec");
    assert("move-speed-dec"@.len() == 14 && "move-speed-dec"@[0] == 'm' && "move-speed-dec"@[1] == 'o' && "move-speed-dec"@[2] == 'v' && "move-speed-dec"@[3] == 'e' && "move-speed-dec"@[4] == '-' && "move-speed-dec"@[5] == 's' && "move-speed-dec"@[6] == 'p' && "move-speed-dec"@[7] == 'e' && "move-speed-dec"@[8] == 'e' && "move-speed-dec"@[9] == 'd' && "move-speed-dec"@[10] == '-' && "move-speed-dec"@[11] == 'd' && "move-speed-dec"@[12] == 'e' && "move-speed-dec"@[13] == 'c');
    reveal_strlit("r");
    assert("r"@.len() == 1 && "r"@[0] == 'r');
    reveal_strlit("pixel-speed-inc");
    assert("pixel-speed-inc"@.len() == 15 && "pixel-speed-inc"@[0] == 'p' && "pixel-speed-inc"@[1] == 'i' && "pixel-speed-inc"@[2] == 'x' && "pixel-speed-inc"@[3] == 'e' && "pixel-speed-inc"@[4] == 'l' && "pixel-speed-inc"@[5] == '-' && "pixel-speed-inc"@[6] == 's' && "pixel-speed-inc"@[7] == 'p' && "pixel-speed-inc"@[8] == 'e' && "pixel-speed-inc"@[9] == 'e' && "pixel-speed-inc"@[10] == 'd' && "pixel-speed-inc"@[11] == '-' && "pixel-speed-inc"@[12] == 'i' && "pixel-speed-inc"@[13] == 'n' && "pixel-speed-inc"@[14] == 'c');
    reveal_strlit("shift+r");
    assert("shift+r"@.len() == 7 && "shift+r"@[0] == 's' && "shift+r"@[1] == 'h' && "shift+r"@[2] == 'i' && "shift+r"@[3] == 'f' && "shift+r"@[4] == 't' && "shift+r"@[5] == '+' && "shift+r"@[6] == 'r');
    reveal_strlit("pixel-speed-dec");
    assert("pixel-speed-dec"@.len() == 15 && "pixel-speed-dec"@[0] == 'p' && "pixel-speed-dec"@[1] == 'i' && "pixel-speed-dec"@[2] == 'x' && "pixel-speed-dec"@[3] == 'e' && "pixel-speed-dec"@[4] == 'l' && "pixel-speed-dec"@[5] == '-' && "pixel-speed-dec"@[6] == 's' && "pixel-speed-dec"@[7] == 'p' && "pixel-speed-dec"@[8] == 'e' && "pixel-speed-dec"@[9] == 'e' && "pixel-speed-dec"@[10] == 'd' && "pixel-speed-dec"@[11] == '-' && "pixel-speed-dec"@[12] == 'd' && "pixel-speed-dec"@[13] == 'e' && "pixel-speed-dec"@[14] == 'c');
    reveal_strlit("turn-speed-inc");
    assert("turn-speed-inc"@.len() == 14 && "turn-speed-inc"@[0] == 't' && "turn-speed-inc"@[1] == 'u' && "turn-speed-inc"@[2] == 'r' && "turn-speed-inc"@[3] == 'n' && "turn-speed-inc"@[4] == '-' && "turn-speed-inc"@[5] == 's' && "turn-speed-inc"@[6] == 'p' && "turn-speed-inc"@[7] == 'e' && "turn-speed-inc"@[8] == 'e' && "turn-speed-inc"@[9] == 'd' && "turn-speed-inc"@[10] == '-' && "turn-speed-inc"@[11] == 'i' && "turn-speed-inc"@[12] == 'n' && "turn-speed-inc"@[13] == 'c');
    reveal_strlit("turn-speed-dec");
    assert("turn-speed-dec"@.len() == 14 && "turn-speed-dec"@[0] == 't' && "turn-speed-dec"@[1] == 'u' && "turn-speed-dec"@[2] == 'r' && "turn-speed-dec"@[3] == 'n' && "turn-speed-dec"@[4] == '-' && "turn-speed-dec"@[5] == 's' && "turn-speed-dec"@[6] == 'p' && "turn-speed-dec"@[7] == 'e' && "turn-speed-dec"@[8] == 'e' && "turn-speed-dec"@[9] == 'd' && "turn-speed-dec"@[10] == '-' && "turn-speed-dec"@[11] == 'd' && "turn-speed-dec"@[12] == 'e' && "turn-speed-dec"@[13] == 'c');
    reveal_strlit("t");
    assert("t"@.len() == 1 && "t"@[0] == 't');
    reveal_strlit("reset-speeds");
    assert("reset-speeds"@.len() == 12 && "reset-speeds"@[0] == 'r' && "reset-speeds"@[1] == 'e' && "reset-speeds"@[2] == 's' && "reset-speeds"@[3] == 'e' && "reset-speeds"@[4] == 't' && "reset-speeds"@[5] == '-' && "reset-speeds"@[6] == 's' && "reset-speeds"@[7] == 'p' && "reset-speeds"@[8] == 'e' && "reset-speeds"@[9] == 'e' && "reset-speeds"@[10] == 'd' && "reset-speeds"@[11] == 's');
    reveal_strlit("camera-zoom-inc");
    assert("camera-zoom-inc"@.len() == 15 && "camera-zoom-inc"@[0] == 'c' && "camera-zoom-inc"@[1] == 'a' && "camera-zoom-inc"@[2] == 'm' && "camera-zoom-inc"@[3] == 'e' && "camera-zoom-inc"@[4] == 'r' && "camera-zoom-inc"@[5] == 'a' && "camera-zoom-inc"@[6] == '-' && "camera-zoom-inc"@[7] == 'z' && "camera-zoom-inc"@[8] == 'o' && "camera-zoom-inc"@[9] == 'o' && "camera-zoom-inc"@[10] == 'm' && "camera-zoom-inc"@[11] == '-' && "camera-zoom-inc"@[12] == 'i' && "camera-zoom-inc"@[13] == 'n' && "camera-zoom-inc"@[14] == 'c');
    reveal_strlit("camera-zoom-dec");
    assert("camera-zoom-dec"@.len() == 15 && "camera-zoom-dec"@[0] == 'c' && "camera-zoom-dec"@[1] == 'a' && "camera-zoom-dec"@[2] == 'm' && "camera-zoom-dec"@[3] == 'e' && "camera-zoom-dec"@[4] == 'r' && "camera-zoom-dec"@[5] == 'a' && "camera-zoom-dec"@[6] == '-' && "camera-zoom-dec"@[7] == 'z' && "camera-zoom-dec"@[8] == 'o' && "camera-zoom-dec"@[9] == 'o' && "camera-zoom-dec"@[10] == 'm' && "camera-zoom-dec"@[11] == '-' && "camera-zoom-dec"@[12] == 'd' && "camera-zoom-dec"@[13] == 'e' && "camera-zoom-dec"@[14] == 'c');
    reveal_strlit("o");
    assert("o"@.len() == 1 && "o"@[0] == 'o');
    reveal_strlit("pixel-width-inc");
    assert("pixel-width-inc"@.len() == 15 && "pixel-width-inc"@[0] == 'p' && "pixel-width-inc"@[1] == 'i' && "pixel-width-inc"@[2] == 'x' && "pixel-width-inc"@[3] == 'e' && "pixel-width-inc"@[4] == 'l' && "pixel-width-inc"@[5] == '-' && "pixel-width-inc"@[6] == 'w' && "pixel-width-inc"@[7] == 'i' && "pixel-width-inc"@[8] == 'd' && "pixel-width-inc"@[9] == 't' && "pixel-width-inc"@[10] == 'h' && "pixel-width-inc"@[11] == '-' && "pixel-width-inc"@[12] == 'i' && "pixel-width-inc"@[13] == 'n' && "pixel-width-inc"@[14] == 'c');
    reveal_strlit("shift+o");
    assert("shift+o"@.len() == 7 && "shift+o"@[0] == 's' && "shift+o"@[1] == 'h' && "shift+o"@[2] == 'i' && "shift+o"@[3] == 'f' && "shift+o"@[4] == 't' && "shift+o"@[5] == '+' && "shift+o"@[6] == 'o');
    reveal_strlit("pixel-width-dec");
    assert("pixel-width-dec"@.len() == 15 && "pixel-width-dec"@[0] == 'p' && "pixel-width-dec"@[1] == 'i' && "pixel-width-dec"@[2] == 'x' && "pixel-width-dec"@[3] == 'e' && "pixel-width-dec"@[4] == 'l' && "pixel-width-dec"@[5] == '-' && "pixel-width-dec"@[6] == 'w' && "pixel-width-dec"@[7] == 'i' && "pixel-width-dec"@[8] == 'd' && "pixel-width-dec"@[9] == 't' && "pixel-width-dec"@[10] == 'h' && "pixel-width-dec"@[11] == '-' && "pixel-width-dec"@[12] == 'd' && "pixel-width-dec"@[13] == 'e' && "pixel-width-dec"@[14] == 'c');
    reveal_strlit("g");
    assert("g"@.len() == 1 && "g"@[0] == 'g');
    reveal_strlit("camera-movement-mode-inc");
    assert("camera-movement-mode-inc"@.len() == 24 && "camera-movement-mode-inc"@[0] == 'c' && "camera-movement-mode-inc"@[1] == 'a' && "camera-movement-mode-inc"@[2] == 'm' && "camera-movement-mode-inc"@[3] == 'e' && "camera-movement-mode-inc"@[4] == 'r' && "camera-movement-mode-inc"@[5] == 'a' && "camera-movement-mode-inc"@[6] == '-' && "camera-movement-mode-inc"@[7] == 'm' && "camera-movement-mode-inc"@[8] == 'o' && "camera-movement-mode-inc"@[9] == 'v' && "camera-movement-mode-inc"@[10] == 'e' && "camera-movement-mode-inc"@[11] == 'm' && "camera-movement-mode-inc"@[12] == 'e' && "camera-movement-mode-inc"@[13] == 'n' && "camera-movement-mode-inc"@[14] == 't' && "camera-movement-mode-inc"@[15] == '-' && "camera-movement-mode-inc"@[16] == 'm' && "camera-movement-mode-inc"@[17] == 'o' && "camera-movement-mode-inc"@[18] == 'd' && "camera-movement-mode-inc"@[19] == 'e' && "camera-movement-mode-inc"@[20] == '-' && "camera-movement-mode-inc"@[21] == 'i' && "camera-movement-mode-inc"@[22] == 'n' && "camera-movement-mode-inc"@[23] == 'c');
    reveal_strlit("shift+g");
    assert("shift+g"@.len() == 7 && "shift+g"@[0] == 's' && "shift+g"@[1] == 'h' && "shift+g"@[2] == 'i' && "shift+g"@[3] == 'f' && "shift+g"@[4] == 't' && "shift+g"@[5] == '+' && "shift+g"@[6] == 'g');
    reveal_strlit("camera-movement-mode-dec");
    assert("camera-movement-mode-dec"@.len() == 24 && "camera-movement-mode-dec"@[0] == 'c' && "camera-movement-mode-dec"@[1] == 'a' && "camera-movement-mode-dec"@[2] == 'm' && "camera-movement-mode-dec"@[3] == 'e' && "camera-movement-mode-dec"@[4] == 'r' && "camera-movement-mode-dec"@[5] == 'a' && "camera-movement-mode-dec"@[6] == '-' && "camera-movement-mode-dec"@[7] == 'm' && "camera-movement-mode-dec"@[8] == 'o' && "camera-movement-mode-dec"@[9] == 'v' && "camera-movement-mode-dec"@[10] == 'e' && "camera-movement-mode-dec"@[11] == 'm' && "camera-movement-mode-dec"@[12] == 'e' && "camera-movement-mode-dec"@[13] == 'n' && "camera-movement-mode-dec"@[14] == 't' && "camera-movement-mode-dec"@[15] == '-' && "camera-movement-mode-dec"@[16] == 'm' && "camera-movement-mode-dec"@[17] == 'o' && "camera-movement-mode-dec"@[18] == 'd' && "camera-movement-mode-dec"@[19] == 'e' && "camera-movement-mode-dec"@[20] == '-' && "camera-movement-mode-dec"@[21] == 'd' && "camera-movement-mode-dec"@[22] == 'e' && "camera-movement-mode-dec"@[23] == 'c');
}

} // verus!
