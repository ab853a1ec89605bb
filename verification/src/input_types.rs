use vstd::prelude::*;

use crate::boolean_button::BooleanButton;
use crate::camera::CameraChange;
use crate::general_types::{IncDec, Size2D};

verus! {

/// Whether a key or button goes down or up.
#[derive(Copy, Clone, Debug, PartialEq, Eq, Structural)]
pub enum Pressed {
    Yes,
    No,
}

impl Pressed {
    pub fn from_bool(pressed: bool) -> (r: Self)
        ensures
            r == (if pressed {
                Pressed::Yes
            } else {
                Pressed::No
            }),
    {
        if pressed {
            Pressed::Yes
        } else {
            Pressed::No
        }
    }
}

/// An input event as the platform delivers it to the simulation.
///
/// Values that the simulation holds as floating point are carried as their bit
/// patterns (`f32::to_bits`).
#[derive(Debug, PartialEq)]
pub enum InputEventValue {
    NoEvent,
    Keyboard { pressed: Pressed, key: String },
    MouseClick(Pressed),
    MouseMove { x: i32, y: i32 },
    MouseWheel(u32),
    BlurredWindow,
    PixelWidth(u32),
    Camera(CameraChange),
    CustomScalingResolutionWidth(u32),
    CustomScalingResolutionHeight(u32),
    CustomScalingAspectRatioX(u32),
    CustomScalingAspectRatioY(u32),
    CustomScalingStretchNearest(bool),
    ViewportResize(u32, u32),
}

/// The events received since the last tick, oldest first.
#[derive(Debug)]
pub struct CustomInputEvent {
    pub values: Vec<InputEventValue>,
}

impl CustomInputEvent {
    pub fn new() -> (r: Self)
        ensures
            r.values@ == Seq::<InputEventValue>::empty(),
    {
        CustomInputEvent { values: Vec::new() }
    }

    pub fn add_value(&mut self, value: InputEventValue)
        ensures
            final(self).values@ == old(self).values@.push(value),
    {
        self.values.push(value);
    }

    pub fn reset(&mut self)
        ensures
            final(self).values@ == Seq::<InputEventValue>::empty(),
    {
        self.values.clear();
    }

    /// Hands out the events and forgets them.
    pub fn consume_values(&mut self) -> (r: Vec<InputEventValue>)
        ensures
            r@ == old(self).values@,
            final(self).values@ == Seq::<InputEventValue>::empty(),
    {
        let mut values = Vec::new();
        std::mem::swap(&mut values, &mut self.values);
        values
    }
}

/// The direction of a two-way action.
#[derive(Copy, Clone, Debug, PartialEq, Eq, Structural)]
pub enum Boolean2DAction {
    Increase,
    Decrease,
}

/// What a hotkey does while it is held.
#[derive(Copy, Clone, Debug, PartialEq, Eq, Structural)]
pub enum BooleanAction {
    WalkLeft,
    WalkRight,
    WalkUp,
    WalkDown,
    WalkForward,
    WalkBackward,
    TurnLeft,
    TurnRight,
    TurnUp,
    TurnDown,
    RotateLeft,
    RotateRight,
    ResetSpeeds,
    ResetPosition,
    ResetFilters,
    Shift,
    Control,
    Alt,
    Esc,
    Space,
    Screenshot,
    InputFocused,
    CanvasFocused,
    MouseClick,
    CameraZoom(Boolean2DAction),
    PixelWidth(Boolean2DAction),
    NextCameraMovementMode(Boolean2DAction),
    TranslationSpeed(Boolean2DAction),
    TurnSpeed(Boolean2DAction),
    FilterSpeed(Boolean2DAction),
    ScalingMethod(Boolean2DAction),
    ScalingResolutionWidth(Boolean2DAction),
    ScalingResolutionHeight(Boolean2DAction),
    ScalingAspectRatioX(Boolean2DAction),
    ScalingAspectRatioY(Boolean2DAction),
}

/// A held hotkey: the key code that activated it, and its action.
pub type KeyCodeBooleanAction = (String, BooleanAction);

/// The input state of the simulation, as it is sampled once per tick.
///
/// Values that the simulation holds as floating point are carried as their bit
/// patterns (`f32::to_bits`, `f64::to_bits`).
#[derive(Debug)]
pub struct Input {
    pub custom_event: CustomInputEvent,
    pub now_bits: u64,
    pub walk_left: bool,
    pub walk_right: bool,
    pub walk_up: bool,
    pub walk_down: bool,
    pub walk_forward: bool,
    pub walk_backward: bool,
    pub turn_left: bool,
    pub turn_right: bool,
    pub turn_up: bool,
    pub turn_down: bool,
    pub rotate_left: bool,
    pub rotate_right: bool,
    pub camera_zoom: IncDec<bool>,
    pub reset_speeds: bool,
    pub reset_position: bool,
    pub reset_filters: bool,
    pub shift: bool,
    pub control: bool,
    pub alt: bool,
    pub input_focused: bool,
    pub canvas_focused: bool,
    pub mouse_position_x: i32,
    pub mouse_position_y: i32,
    pub mouse_scroll_y_bits: u32,
    pub pixel_width: IncDec<bool>,
    pub active_pressed_actions: Vec<KeyCodeBooleanAction>,
    pub active_pressed_actions_2: Vec<String>,
    pub next_camera_movement_mode: IncDec<BooleanButton>,
    pub translation_speed: IncDec<BooleanButton>,
    pub turn_speed: IncDec<BooleanButton>,
    pub filter_speed: IncDec<BooleanButton>,
    pub mouse_click: BooleanButton,
    pub blur: IncDec<BooleanButton>,
    pub scaling_method: IncDec<BooleanButton>,
    pub scaling_resolution_width: IncDec<BooleanButton>,
    pub scaling_resolution_height: IncDec<BooleanButton>,
    pub scaling_aspect_ratio_x: IncDec<BooleanButton>,
    pub scaling_aspect_ratio_y: IncDec<BooleanButton>,
    pub esc: BooleanButton,
    pub space: BooleanButton,
    pub screenshot: BooleanButton,
    pub event_scaling_resolution_width: Option<u32>,
    pub event_scaling_resolution_height: Option<u32>,
    pub event_scaling_aspect_ratio_x: Option<u32>,
    pub event_scaling_aspect_ratio_y: Option<u32>,
    pub event_custom_scaling_stretch_nearest: Option<bool>,
    pub event_pixel_width: Option<u32>,
    pub event_viewport_resize: Option<Size2D<u32>>,
    pub event_camera: Option<CameraChange>,
}

/// The held hotkeys, each as its key code and action.
pub open spec fn actions_view(v: Seq<KeyCodeBooleanAction>) -> Seq<(Seq<char>, BooleanAction)> {
    v.map_values(|p: KeyCodeBooleanAction| (p.0@, p.1))
}

/// The held key codes of the controller hotkeys.
pub open spec fn keys_view(v: Seq<String>) -> Seq<Seq<char>> {
    v.map_values(|s: String| s@)
}

/// The part of the input that hotkey actions drive.
#[derive(Copy, Clone, Debug, PartialEq, Eq)]
pub struct Controls {
    pub walk_left: bool,
    pub walk_right: bool,
    pub walk_up: bool,
    pub walk_down: bool,
    pub walk_forward: bool,
    pub walk_backward: bool,
    pub turn_left: bool,
    pub turn_right: bool,
    pub turn_up: bool,
    pub turn_down: bool,
    pub rotate_left: bool,
    pub rotate_right: bool,
    pub camera_zoom: IncDec<bool>,
    pub reset_speeds: bool,
    pub reset_position: bool,
    pub reset_filters: bool,
    pub shift: bool,
    pub control: bool,
    pub alt: bool,
    pub input_focused: bool,
    pub canvas_focused: bool,
    pub pixel_width: IncDec<bool>,
    pub next_camera_movement_mode: IncDec<BooleanButton>,
    pub translation_speed: IncDec<BooleanButton>,
    pub turn_speed: IncDec<BooleanButton>,
    pub filter_speed: IncDec<BooleanButton>,
    pub mouse_click: BooleanButton,
    pub scaling_method: IncDec<BooleanButton>,
    pub scaling_resolution_width: IncDec<BooleanButton>,
    pub scaling_resolution_height: IncDec<BooleanButton>,
    pub scaling_aspect_ratio_x: IncDec<BooleanButton>,
    pub scaling_aspect_ratio_y: IncDec<BooleanButton>,
    pub esc: BooleanButton,
    pub space: BooleanButton,
    pub screenshot: BooleanButton,
}

impl Input {
    /// The part of the input that hotkey actions drive.
    pub open spec fn controls(&self) -> Controls {
        Controls {
            walk_left: self.walk_left,
            walk_right: self.walk_right,
            walk_up: self.walk_up,
            walk_down: self.walk_down,
            walk_forward: self.walk_forward,
            walk_backward: self.walk_backward,
            turn_left: self.turn_left,
            turn_right: self.turn_right,
            turn_up: self.turn_up,
            turn_down: self.turn_down,
            rotate_left: self.rotate_left,
            rotate_right: self.rotate_right,
            camera_zoom: self.camera_zoom,
            reset_speeds: self.reset_speeds,
            reset_position: self.reset_position,
            reset_filters: self.reset_filters,
            shift: self.shift,
            control: self.control,
            alt: self.alt,
            input_focused: self.input_focused,
            canvas_focused: self.canvas_focused,
            pixel_width: self.pixel_width,
            next_camera_movement_mode: self.next_camera_movement_mode,
            translation_speed: self.translation_speed,
            turn_speed: self.turn_speed,
            filter_speed: self.filter_speed,
            mouse_click: self.mouse_click,
            scaling_method: self.scaling_method,
            scaling_resolution_width: self.scaling_resolution_width,
            scaling_resolution_height: self.scaling_resolution_height,
            scaling_aspect_ratio_x: self.scaling_aspect_ratio_x,
            scaling_aspect_ratio_y: self.scaling_aspect_ratio_y,
            esc: self.esc,
            space: self.space,
            screenshot: self.screenshot,
        }
    }

    /// The fields that neither hotkey actions nor the held hotkeys touch are those of
    /// `other`.
    pub open spec fn others_equal(&self, other: &Input) -> bool {
        &&& self.custom_event.values@ == other.custom_event.values@
        &&& self.now_bits == other.now_bits
        &&& self.mouse_position_x == other.mouse_position_x
        &&& self.mouse_position_y == other.mouse_position_y
        &&& self.mouse_scroll_y_bits == other.mouse_scroll_y_bits
        &&& self.blur == other.blur
        &&& self.active_pressed_actions_2@ == other.active_pressed_actions_2@
        &&& self.event_scaling_resolution_width == other.event_scaling_resolution_width
        &&& self.event_scaling_resolution_height == other.event_scaling_resolution_height
        &&& self.event_scaling_aspect_ratio_x == other.event_scaling_aspect_ratio_x
        &&& self.event_scaling_aspect_ratio_y == other.event_scaling_aspect_ratio_y
        &&& self.event_custom_scaling_stretch_nearest == other.event_custom_scaling_stretch_nearest
        &&& self.event_pixel_width == other.event_pixel_width
        &&& self.event_viewport_resize == other.event_viewport_resize
        &&& self.event_camera == other.event_camera
    }

    /// The fields that neither the controller hotkeys nor their held list touch are those
    /// of `other`.
    pub open spec fn others_equal_2(&self, other: &Input) -> bool {
        &&& self.custom_event.values@ == other.custom_event.values@
        &&& self.now_bits == other.now_bits
        &&& self.mouse_position_x == other.mouse_position_x
        &&& self.mouse_position_y == other.mouse_position_y
        &&& self.mouse_scroll_y_bits == other.mouse_scroll_y_bits
        &&& self.blur == other.blur
        &&& self.active_pressed_actions@ == other.active_pressed_actions@
        &&& self.event_scaling_resolution_width == other.event_scaling_resolution_width
        &&& self.event_scaling_resolution_height == other.event_scaling_resolution_height
        &&& self.event_scaling_aspect_ratio_x == other.event_scaling_aspect_ratio_x
        &&& self.event_scaling_aspect_ratio_y == other.event_scaling_aspect_ratio_y
        &&& self.event_custom_scaling_stretch_nearest == other.event_custom_scaling_stretch_nearest
        &&& self.event_pixel_width == other.event_pixel_width
        &&& self.event_viewport_resize == other.event_viewport_resize
        &&& self.event_camera == other.event_camera
    }

    /// The held controller hotkeys.
    pub open spec fn controller_keys_view(&self) -> Seq<Seq<char>> {
        keys_view(self.active_pressed_actions_2@)
    }

    /// The held hotkeys.
    pub open spec fn active_view(&self) -> Seq<(Seq<char>, BooleanAction)> {
        actions_view(self.active_pressed_actions@)
    }

    /// Nothing is held, nothing happened: the state of a fresh window.
    pub open spec fn is_at_rest(&self) -> bool {
        let released = BooleanButton::released();
        let idle = IncDec { increase: released, decrease: released };
        let off = IncDec { increase: false, decrease: false };
        &&& self.custom_event.values@ == Seq::<InputEventValue>::empty()
        &&& !self.walk_left && !self.walk_right && !self.walk_up && !self.walk_down
        &&& !self.walk_forward && !self.walk_backward
        &&& !self.turn_left && !self.turn_right && !self.turn_up && !self.turn_down
        &&& !self.rotate_left && !self.rotate_right
        &&& self.camera_zoom == off && self.pixel_width == off
        &&& !self.reset_speeds && !self.reset_position && !self.reset_filters
        &&& !self.shift && !self.control && !self.alt
        &&& !self.input_focused && !self.canvas_focused
        &&& self.mouse_position_x == 0 && self.mouse_position_y == 0
        &&& self.mouse_scroll_y_bits == 0
        &&& self.active_pressed_actions@.len() == 0
        &&& self.active_pressed_actions_2@.len() == 0
        &&& self.next_camera_movement_mode == idle && self.translation_speed == idle
        &&& self.turn_speed == idle && self.filter_speed == idle
        &&& self.mouse_click == released
        &&& self.blur == idle && self.scaling_method == idle
        &&& self.scaling_resolution_width == idle && self.scaling_resolution_height == idle
        &&& self.scaling_aspect_ratio_x == idle && self.scaling_aspect_ratio_y == idle
        &&& self.esc == released && self.space == released && self.screenshot == released
        &&& self.event_scaling_resolution_width is None
        &&& self.event_scaling_resolution_height is None
        &&& self.event_scaling_aspect_ratio_x is None
        &&& self.event_scaling_aspect_ratio_y is None
        &&& self.event_custom_scaling_stretch_nearest is None
        &&& self.event_pixel_width is None
        &&& self.event_viewport_resize is None
        &&& self.event_camera is None
    }

    /// An input at rest at the time `now_bits` (`f64` bits).
    pub fn new(now_bits: u64) -> (r: Input)
        ensures
            r.is_at_rest(),
            r.now_bits == now_bits,
    {
        Input {
            custom_event: CustomInputEvent::new(),
            now_bits,
            walk_left: false,
            walk_right: false,
            walk_up: false,
            walk_down: false,
            walk_forward: false,
            walk_backward: false,
            turn_left: false,
            turn_right: false,
            turn_up: false,
            turn_down: false,
            rotate_left: false,
            rotate_right: false,
            camera_zoom: IncDec::default(),
            reset_speeds: false,
            reset_position: false,
            reset_filters: false,
            shift: false,
            control: false,
            alt: false,
            input_focused: false,
            canvas_focused: false,
            mouse_position_x: 0,
            mouse_position_y: 0,
            mouse_scroll_y_bits: 0,
            pixel_width: IncDec::default(),
            active_pressed_actions: Vec::new(),
            active_pressed_actions_2: Vec::new(),
            next_camera_movement_mode: IncDec::default(),
            translation_speed: IncDec::default(),
            turn_speed: IncDec::default(),
            filter_speed: IncDec::default(),
            mouse_click: BooleanButton::new(),
            blur: IncDec::default(),
            scaling_method: IncDec::default(),
            scaling_resolution_width: IncDec::default(),
            scaling_resolution_height: IncDec::default(),
            scaling_aspect_ratio_x: IncDec::default(),
            scaling_aspect_ratio_y: IncDec::default(),
            esc: BooleanButton::new(),
            space: BooleanButton::new(),
            screenshot: BooleanButton::new(),
            event_scaling_resolution_width: None,
            event_scaling_resolution_height: None,
            event_scaling_aspect_ratio_x: None,
            event_scaling_aspect_ratio_y: None,
            event_custom_scaling_stretch_nearest: None,
            event_pixel_width: None,
            event_viewport_resize: None,
            event_camera: None,
        }
    }

    /// Queues an event for the next tick.
    pub fn push_event(&mut self, event: InputEventValue)
        ensures
            final(self).custom_event.values@ == old(self).custom_event.values@.push(event),
            *final(self) == (Input { custom_event: final(self).custom_event, ..*old(self) }),
    {
        self.custom_event.add_value(event);
    }

    /// Forgets the one-tick values: the events not yet consumed, the mouse motion, the
    /// one-shot resets and every pending event value.
    pub fn clear_tick_values(&mut self)
        ensures
            final(self).custom_event.values@ == Seq::<InputEventValue>::empty(),
            *final(self) == (Input {
                custom_event: final(self).custom_event,
                mouse_scroll_y_bits: 0,
                mouse_position_x: 0,
                mouse_position_y: 0,
                reset_filters: false,
                reset_position: false,
                reset_speeds: false,
                event_scaling_resolution_width: None,
                event_scaling_resolution_height: None,
                event_scaling_aspect_ratio_x: None,
                event_scaling_aspect_ratio_y: None,
                event_custom_scaling_stretch_nearest: None,
                event_pixel_width: None,
                event_viewport_resize: None,
                event_camera: None,
                ..*old(self)
            }),
    {
        self.mouse_scroll_y_bits = 0;
        self.mouse_position_x = 0;
        self.mouse_position_y = 0;
        self.custom_event.reset();
        self.reset_filters = false;
        self.reset_position = false;
        self.reset_speeds = false;
        self.event_scaling_resolution_width = None;
        self.event_scaling_resolution_height = None;
        self.event_scaling_aspect_ratio_x = None;
        self.event_scaling_aspect_ratio_y = None;
        self.event_custom_scaling_stretch_nearest = None;
        self.event_pixel_width = None;
        self.event_viewport_resize = None;
        self.event_camera = None;
    }

    /// Samples every tracked button.
    pub fn track_buttons(&mut self)
        ensures
            final(self).next_camera_movement_mode == sampled_pair(old(self).next_camera_movement_mode),
            final(self).translation_speed == sampled_pair(old(self).translation_speed),
            final(self).turn_speed == sampled_pair(old(self).turn_speed),
            final(self).filter_speed == sampled_pair(old(self).filter_speed),
            final(self).mouse_click == sampled(old(self).mouse_click),
            final(self).blur == sampled_pair(old(self).blur),
            final(self).scaling_method == sampled_pair(old(self).scaling_method),
            final(self).scaling_resolution_width == sampled_pair(old(self).scaling_resolution_width),
            final(self).scaling_resolution_height == sampled_pair(old(self).scaling_resolution_height),
            final(self).scaling_aspect_ratio_x == sampled_pair(old(self).scaling_aspect_ratio_x),
            final(self).scaling_aspect_ratio_y == sampled_pair(old(self).scaling_aspect_ratio_y),
            final(self).esc == sampled(old(self).esc),
            final(self).space == sampled(old(self).space),
            final(self).screenshot == sampled(old(self).screenshot),
            *final(self) == (Input {
                next_camera_movement_mode: final(self).next_camera_movement_mode,
                translation_speed: final(self).translation_speed,
                turn_speed: final(self).turn_speed,
                filter_speed: final(self).filter_speed,
                mouse_click: final(self).mouse_click,
                blur: final(self).blur,
                scaling_method: final(self).scaling_method,
                scaling_resolution_width: final(self).scaling_resolution_width,
                scaling_resolution_height: final(self).scaling_resolution_height,
                scaling_aspect_ratio_x: final(self).scaling_aspect_ratio_x,
                scaling_aspect_ratio_y: final(self).scaling_aspect_ratio_y,
                esc: final(self).esc,
                space: final(self).space,
                screenshot: final(self).screenshot,
                ..*old(self)
            }),
    {
        self.next_camera_movement_mode.track();
        self.translation_speed.track();
        self.turn_speed.track();
        self.filter_speed.track();
        self.mouse_click.track_input();
        self.blur.track();
        self.scaling_method.track();
        self.scaling_resolution_width.track();
        self.scaling_resolution_height.track();
        self.scaling_aspect_ratio_x.track();
        self.scaling_aspect_ratio_y.track();
        self.esc.track_input();
        self.space.track_input();
        self.screenshot.track_input();
    }
}

/// A button after one sample.
pub open spec fn sampled(b: BooleanButton) -> BooleanButton {
    BooleanButton {
        input: b.input,
        activated: b.input,
        just_pressed: b.input && !b.activated,
        just_released: !b.input && b.activated,
    }
}

/// A pair of buttons after one sample.
pub open spec fn sampled_pair(p: IncDec<BooleanButton>) -> IncDec<BooleanButton> {
    IncDec { increase: sampled(p.increase), decrease: sampled(p.decrease) }
}

impl Default for Input {
    fn default() -> (r: Self)
        ensures
            r.is_at_rest(),
            r.now_bits == 0,
    {
        Input::new(0)
    }
}

} // verus!
