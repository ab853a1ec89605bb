use vstd::prelude::*;

use crate::input_types::{InputEventValue, Pressed};
use crate::sim_ui::{key_events_view, releases, texts, SimPanelSection, SyntheticKeys};
use crate::simulation_input::{
    character_outcome, routed_outcome, KeyboardInput, KeyboardView, ModifiersState, SimulationKeyboardInput,
    SimulationPointerInput, VirtualKeyCode,
};
use crate::text::{concat, push_decimal, push_signed_decimal, push_str, str_eq};
use crate::text::{decimal, signed_decimal};

verus! {

/// The events appended to `before` to make `after`.
pub open spec fn appended(before: Seq<InputEventValue>, after: Seq<InputEventValue>) -> Seq<InputEventValue> {
    after.subrange(before.len() as int, after.len() as int)
}

/// `after` keeps every event of `before`, in front.
pub open spec fn extends(before: Seq<InputEventValue>, after: Seq<InputEventValue>) -> bool {
    before.len() <= after.len() && after.take(before.len() as int) == before
}

/// The key edge a focus flag `name` sends when it becomes `focused`.
pub open spec fn is_focus_edge(e: InputEventValue, name: Seq<char>, focused: bool) -> bool {
    e matches InputEventValue::Keyboard { pressed, key } && pressed == (if focused {
        Pressed::Yes
    } else {
        Pressed::No
    }) && key@ == name
}

/// The keys that activate the focused widget of the user interface.
pub open spec fn activation_key(key: Option<VirtualKeyCode>) -> bool {
    key == Some(VirtualKeyCode::Return) || key == Some(VirtualKeyCode::NumpadEnter) || key == Some(
        VirtualKeyCode::Space,
    )
}

/// While the user interface wants the keyboard, its activation keys are its own.
pub fn ui_owns_activation(ui_wants_keyboard: bool, key: Option<VirtualKeyCode>) -> (r: bool)
    ensures
        r == (ui_wants_keyboard && activation_key(key)),
{
    let activation = match key {
        Some(VirtualKeyCode::Return) => true,
        Some(VirtualKeyCode::NumpadEnter) => true,
        Some(VirtualKeyCode::Space) => true,
        _ => false,
    };
    ui_wants_keyboard && activation
}

/// The clean simulation image is drawn again before the user interface when the last
/// frame left another target bound, drew nothing, or is to be reused.
pub fn needs_clean_redraw(has_simulation_frame: bool, screenshot_frame: bool, drawable: bool, reuse: bool, quit: bool) -> (r: bool)
    ensures
        r == (has_simulation_frame && (screenshot_frame || !drawable || reuse || quit)),
{
    has_simulation_frame && (screenshot_frame || !drawable || reuse || quit)
}

/// The category of the panel that a capture session names.
pub open spec fn section_named(name: Seq<char>) -> Option<SimPanelSection> {
    if name == "presets"@ {
        Some(SimPanelSection::Presets)
    } else if name == "image-scaling"@ {
        Some(SimPanelSection::ImageScaling)
    } else if name == "performance"@ {
        Some(SimPanelSection::Performance)
    } else if name == "colors"@ {
        Some(SimPanelSection::Colors)
    } else if name == "geometry-and-textures"@ {
        Some(SimPanelSection::GeometryAndTextures)
    } else if name == "camera"@ {
        Some(SimPanelSection::Camera)
    } else if name == "command-modifiers"@ {
        Some(SimPanelSection::CommandModifiers)
    } else if name == "webgl-settings"@ {
        Some(SimPanelSection::WebGlSettings)
    } else if name == "extra"@ {
        Some(SimPanelSection::Extra)
    } else {
        None
    }
}

pub fn section_from_name(name: &str) -> (r: Option<SimPanelSection>)
    ensures
        r == section_named(name@),
{
    if str_eq(name, "presets") {
        Some(SimPanelSection::Presets)
    } else if str_eq(name, "image-scaling") {
        Some(SimPanelSection::ImageScaling)
    } else if str_eq(name, "performance") {
        Some(SimPanelSection::Performance)
    } else if str_eq(name, "colors") {
        Some(SimPanelSection::Colors)
    } else if str_eq(name, "geometry-and-textures") {
        Some(SimPanelSection::GeometryAndTextures)
    } else if str_eq(name, "camera") {
        Some(SimPanelSection::Camera)
    } else if str_eq(name, "command-modifiers") {
        Some(SimPanelSection::CommandModifiers)
    } else if str_eq(name, "webgl-settings") {
        Some(SimPanelSection::WebGlSettings)
    } else if str_eq(name, "extra") {
        Some(SimPanelSection::Extra)
    } else {
        None
    }
}

/// The error of a screenshot of a size with no pixels.
pub open spec fn invalid_screenshot_size(width: int, height: int) -> Seq<char> {
    "invalid screenshot size "@ + signed_decimal(width) + "x"@ + signed_decimal(height)
}

/// Checks the size of a screenshot before its pixels are read: both sides are positive,
/// and then they are returned as lengths.
pub fn screenshot_size(width: i32, height: i32) -> (r: Result<(usize, usize), String>)
    ensures
        width > 0 && height > 0 <==> r is Ok,
        r matches Ok((w, h)) ==> w == width && h == height,
        r matches Err(e) ==> e@ == invalid_screenshot_size(width as int, height as int),
{
    if width <= 0 || height <= 0 {
        let mut s = "invalid screenshot size ".to_owned();
        push_signed_decimal(&mut s, width as i64);
        push_str(&mut s, "x");
        push_signed_decimal(&mut s, height as i64);
        return Err(s);
    }
    Ok((width as usize, height as usize))
}

/// The error of a capture of a size with no pixels.
pub open spec fn invalid_capture_size(width: nat, height: nat) -> Seq<char> {
    "invalid UI capture size "@ + decimal(width) + "x"@ + decimal(height)
}

/// The length of the RGBA buffer of a capture of the window.
pub fn capture_buffer_len(width: u32, height: u32) -> (r: Result<usize, String>)
    ensures
        (width == 0 || height == 0) ==> (r matches Err(e) && e@ == invalid_capture_size(width as nat, height as nat)),
        width > 0 && height > 0 && width * height * 4 > usize::MAX ==> (r matches Err(e) && e@
            == "UI capture buffer size overflow"@),
        width > 0 && height > 0 && width * height * 4 <= usize::MAX ==> r == Ok::<usize, String>(
            (width * height * 4) as usize,
        ),
{
    if width == 0 || height == 0 {
        let mut s = "invalid UI capture size ".to_owned();
        push_decimal(&mut s, width as u64);
        push_str(&mut s, "x");
        push_decimal(&mut s, height as u64);
        return Err(s);
    }
    let w = width as usize;
    let h = height as usize;
    match w.checked_mul(h) {
        Some(pixels) => match pixels.checked_mul(4) {
            Some(len) => Ok(len),
            None => Err("UI capture buffer size overflow".to_owned()),
        },
        None => {
            proof {
                assert(w * h * 4 >= w * h) by (nonlinear_arith)
                    requires
                        w > 0,
                        h > 0,
                ;
            }
            Err("UI capture buffer size overflow".to_owned())
        },
    }
}

/// The message the panel shows after a screenshot: its failure, if any.
pub open spec fn screenshot_report(failure: Option<Seq<char>>) -> Seq<char> {
    match failure {
        Some(e) => "Screenshot failed: "@ + e,
        None => "Screenshot saved."@,
    }
}

pub fn screenshot_message(failure: Option<&str>) -> (r: String)
    ensures
        r@ == screenshot_report(
            match failure {
                Some(e) => Some(e@),
                None => None,
            },
        ),
{
    match failure {
        Some(e) => concat("Screenshot failed: ", e),
        None => "Screenshot saved.".to_owned(),
    }
}

/// The input side of the native front end, between window events: which of the
/// simulation, the panel and the window has the focus, and the keyboard and primary
/// button as the simulation sees them.
#[derive(Clone, Debug)]
pub struct NativeSimulationState {
    pub canvas_focused: bool,
    pub input_focused: bool,
    pub window_focused: bool,
    pub interactions_reset: bool,
    pub simulation_pointer: SimulationPointerInput,
    pub simulation_keyboard: SimulationKeyboardInput,
}

impl NativeSimulationState {
    pub open spec fn wf(&self) -> bool {
        self.simulation_keyboard.wf()
    }

    /// The state but for the keyboard.
    pub open spec fn same_flags(&self, other: &Self) -> bool {
        &&& self.canvas_focused == other.canvas_focused
        &&& self.input_focused == other.input_focused
        &&& self.window_focused == other.window_focused
        &&& self.interactions_reset == other.interactions_reset
        &&& self.simulation_pointer == other.simulation_pointer
    }

    pub fn new() -> (r: NativeSimulationState)
        ensures
            r.wf(),
            !r.canvas_focused,
            !r.input_focused,
            r.window_focused,
            !r.interactions_reset,
            !r.simulation_pointer.down,
            r.simulation_keyboard.view().pending.len() == 0,
            r.simulation_keyboard.view().active.len() == 0,
            r.simulation_keyboard.view().ui_owned.len() == 0,
            r.simulation_keyboard.view().modifiers == ModifiersState::empty_spec(),
            !r.simulation_keyboard.view().dead,
    {
        NativeSimulationState {
            canvas_focused: false,
            input_focused: false,
            window_focused: true,
            interactions_reset: false,
            simulation_pointer: SimulationPointerInput::new(),
            simulation_keyboard: SimulationKeyboardInput::new(),
        }
    }

    /// Every window event first records a change of the window's focus, `focused`; while
    /// the window is focused, the interactions may be reset again.
    pub fn on_window_event(&mut self, focused: Option<bool>)
        ensures
            final(self).window_focused == match focused {
                Some(f) => f,
                None => old(self).window_focused,
            },
            final(self).interactions_reset == (old(self).interactions_reset && !final(self).window_focused),
            final(self).canvas_focused == old(self).canvas_focused,
            final(self).input_focused == old(self).input_focused,
            final(self).simulation_pointer == old(self).simulation_pointer,
            final(self).simulation_keyboard == old(self).simulation_keyboard,
    {
        if let Some(f) = focused {
            self.window_focused = f;
        }
        if self.window_focused {
            self.interactions_reset = false;
        }
    }

    /// Whether the pointer is over the simulation; a change is a key edge for it.
    pub fn set_canvas_focused(&mut self, focused: bool) -> (r: Option<InputEventValue>)
        ensures
            final(self).canvas_focused == focused,
            old(self).canvas_focused == focused ==> r is None,
            old(self).canvas_focused != focused ==> (r matches Some(e) && is_focus_edge(e, "canvas_focused"@, focused)),
            final(self).input_focused == old(self).input_focused,
            final(self).window_focused == old(self).window_focused,
            final(self).interactions_reset == old(self).interactions_reset,
            final(self).simulation_pointer == old(self).simulation_pointer,
            final(self).simulation_keyboard == old(self).simulation_keyboard,
    {
        if self.canvas_focused == focused {
            return None;
        }
        self.canvas_focused = focused;
        Some(InputEventValue::Keyboard { pressed: Pressed::from_bool(focused), key: "canvas_focused".to_owned() })
    }

    /// Whether a text field of the panel has the keyboard; a change is a key edge for it.
    pub fn set_input_focused(&mut self, focused: bool) -> (r: Option<InputEventValue>)
        ensures
            final(self).input_focused == focused,
            old(self).input_focused == focused ==> r is None,
            old(self).input_focused != focused ==> (r matches Some(e) && is_focus_edge(e, "input_focused"@, focused)),
            final(self).canvas_focused == old(self).canvas_focused,
            final(self).window_focused == old(self).window_focused,
            final(self).interactions_reset == old(self).interactions_reset,
            final(self).simulation_pointer == old(self).simulation_pointer,
            final(self).simulation_keyboard == old(self).simulation_keyboard,
    {
        if self.input_focused == focused {
            return None;
        }
        self.input_focused = focused;
        Some(InputEventValue::Keyboard { pressed: Pressed::from_bool(focused), key: "input_focused".to_owned() })
    }

    /// Lets the primary button go, with its release edge when `emit_release`. Returns
    /// whether the pointer was in use, by the simulation or by a pointer lock
    /// (`cursor_hidden`): the cursor is then to be set free.
    pub fn release_sim_pointer(&mut self, emit_release: bool, cursor_hidden: bool, output: &mut Vec<InputEventValue>) -> (r: bool)
        ensures
            r == (old(self).simulation_pointer.down || cursor_hidden),
            !final(self).simulation_pointer.down,
            emit_release && old(self).simulation_pointer.down ==> final(output)@ == old(output)@.push(
                InputEventValue::MouseClick(Pressed::No),
            ),
            !(emit_release && old(self).simulation_pointer.down) ==> final(output)@ == old(output)@,
            final(self).canvas_focused == old(self).canvas_focused,
            final(self).input_focused == old(self).input_focused,
            final(self).window_focused == old(self).window_focused,
            final(self).interactions_reset == old(self).interactions_reset,
            final(self).simulation_keyboard == old(self).simulation_keyboard,
    {
        let was_active = self.simulation_pointer.is_down() || cursor_hidden;
        if emit_release {
            if let Some(event) = self.simulation_pointer.release() {
                output.push(event);
            }
        } else {
            self.simulation_pointer.clear();
        }
        was_active
    }

    /// Once until the window is focused again: the panel's keys go up, the simulation
    /// hears that the window lost the focus, and the keys, the focus flags and the button
    /// are forgotten. Returns whether the cursor is to be set free.
    pub fn reset_interactions(&mut self, panel: &mut SyntheticKeys, cursor_hidden: bool, output: &mut Vec<InputEventValue>) -> (r: bool)
        requires
            old(self).wf(),
            old(panel).wf(),
        ensures
            final(self).wf(),
            final(panel).wf(),
            extends(old(output)@, final(output)@),
            old(self).interactions_reset ==> *final(self) == *old(self) && *final(panel) == *old(panel)
                && final(output)@ == old(output)@ && !r,
            !old(self).interactions_reset ==> {
                let added = appended(old(output)@, final(output)@);
                &&& final(self).interactions_reset
                &&& !final(self).canvas_focused
                &&& !final(self).input_focused
                &&& final(self).window_focused == old(self).window_focused
                &&& !final(self).simulation_pointer.down
                &&& final(self).simulation_keyboard.view().pending.len() == 0
                &&& final(self).simulation_keyboard.view().active.len() == 0
                &&& final(self).simulation_keyboard.view().ui_owned.len() == 0
                &&& !final(self).simulation_keyboard.view().dead
                &&& final(panel).down@.len() == 0
                &&& added.len() == old(panel).down@.len() + 1
                &&& key_events_view(added.drop_last()) == releases(texts(old(panel).down@))
                &&& added.last() == InputEventValue::BlurredWindow
                &&& r == (old(self).simulation_pointer.down || cursor_hidden)
            },
    {
        if self.interactions_reset {
            proof {
                assert(output@.take(output@.len() as int) =~= output@);
            }
            return false;
        }
        self.interactions_reset = true;
        let ghost out0 = output@;
        panel.release_all(output);
        let ghost out1 = output@;
        output.push(InputEventValue::BlurredWindow);
        self.simulation_keyboard.clear();
        self.canvas_focused = false;
        self.input_focused = false;
        let r = self.release_sim_pointer(false, cursor_hidden, output);
        proof {
            let added = appended(out0, output@);
            assert(output@.take(out0.len() as int) =~= out1.take(out0.len() as int));
            assert(added.drop_last() =~= appended(out0, out1));
            lemma_views_of_appended(out0, out1);
        }
        r
    }

    /// A physical key goes down or up. While the window has the focus it goes to the
    /// keyboard, routed to the panel when the panel wants the keyboard and the key
    /// activates its widget; otherwise it is ignored.
    pub fn keyboard_input(&mut self, input: &KeyboardInput, ui_wants_keyboard: bool) -> (r: Vec<InputEventValue>)
        requires
            old(self).wf(),
        ensures
            final(self).wf(),
            final(self).same_flags(old(self)),
            old(self).window_focused ==> (final(self).simulation_keyboard.view(), key_events_view(r@))
                == routed_outcome(
                old(self).simulation_keyboard.view(),
                *input,
                !(ui_wants_keyboard && activation_key(input.virtual_keycode)),
            ),
            !old(self).window_focused ==> r@.len() == 0 && final(self).simulation_keyboard == old(
                self,
            ).simulation_keyboard,
    {
        if !self.window_focused {
            return Vec::new();
        }
        let owned = ui_owns_activation(ui_wants_keyboard, input.virtual_keycode);
        self.simulation_keyboard.on_keyboard_input_routed(input, !owned)
    }

    /// The layout delivers a character; ignored while the window has no focus.
    pub fn received_character(&mut self, character: char) -> (r: Vec<InputEventValue>)
        requires
            old(self).wf(),
        ensures
            final(self).wf(),
            final(self).same_flags(old(self)),
            old(self).window_focused ==> (final(self).simulation_keyboard.view(), key_events_view(r@))
                == character_outcome(old(self).simulation_keyboard.view(), character),
            !old(self).window_focused ==> r@.len() == 0 && final(self).simulation_keyboard == old(
                self,
            ).simulation_keyboard,
    {
        if !self.window_focused {
            return Vec::new();
        }
        self.simulation_keyboard.on_received_character(character)
    }

    /// The modifier keys change; ignored while the window has no focus.
    pub fn modifiers_changed(&mut self, modifiers: ModifiersState)
        requires
            old(self).wf(),
        ensures
            final(self).wf(),
            final(self).same_flags(old(self)),
            old(self).window_focused ==> final(self).simulation_keyboard.view() == (KeyboardView {
                modifiers,
                ..old(self).simulation_keyboard.view()
            }),
            !old(self).window_focused ==> final(self).simulation_keyboard == old(self).simulation_keyboard,
    {
        if self.window_focused {
            self.simulation_keyboard.on_modifiers_changed(modifiers);
        }
    }

    /// The primary button goes down or up; a press is the panel's when the panel holds
    /// the pointer (`pointer_captured`) or the window has no focus.
    pub fn primary_button(&mut self, pressed: bool, pointer_captured: bool) -> (r: Option<InputEventValue>)
        requires
            old(self).wf(),
        ensures
            final(self).wf(),
            ({
                let p = old(self).simulation_pointer;
                let e = pressed && !(pointer_captured || !old(self).window_focused) && !p.down;
                &&& pressed && !e ==> r is None && final(self).simulation_pointer == old(self).simulation_pointer
                &&& e ==> r == crate::simulation_input::click(true) && final(self).simulation_pointer.down
                &&& !pressed && p.down ==> r == crate::simulation_input::click(false)
                    && !final(self).simulation_pointer.down
                &&& !pressed && !p.down ==> r is None && !final(self).simulation_pointer.down
            }),
            final(self).canvas_focused == old(self).canvas_focused,
            final(self).input_focused == old(self).input_focused,
            final(self).window_focused == old(self).window_focused,
            final(self).interactions_reset == old(self).interactions_reset,
            final(self).simulation_keyboard == old(self).simulation_keyboard,
    {
        let blocked = pointer_captured || !self.window_focused;
        self.simulation_pointer.on_primary_button(pressed, blocked)
    }

    /// The wheel turns by `delta_bits` (the bit pattern of the browser's delta): over
    /// the simulation of a focused window, the simulation gets the focus and the turn.
    pub fn mouse_wheel(&mut self, pointer_captured: bool, delta_bits: u32, output: &mut Vec<InputEventValue>)
        requires
            old(self).wf(),
        ensures
            final(self).wf(),
            extends(old(output)@, final(output)@),
            !(old(self).window_focused && !pointer_captured) ==> *final(self) == *old(self) && final(output)@
                == old(output)@,
            old(self).window_focused && !pointer_captured ==> {
                let added = appended(old(output)@, final(output)@);
                &&& final(self).canvas_focused
                &&& added.last() == InputEventValue::MouseWheel(delta_bits)
                &&& old(self).canvas_focused ==> added.len() == 1
                &&& !old(self).canvas_focused ==> added.len() == 2 && is_focus_edge(added[0], "canvas_focused"@, true)
            },
            final(self).input_focused == old(self).input_focused,
            final(self).window_focused == old(self).window_focused,
            final(self).interactions_reset == old(self).interactions_reset,
            final(self).simulation_pointer == old(self).simulation_pointer,
            final(self).simulation_keyboard == old(self).simulation_keyboard,
    {
        if self.window_focused && !pointer_captured {
            if let Some(edge) = self.set_canvas_focused(true) {
                output.push(edge);
            }
            output.push(InputEventValue::MouseWheel(delta_bits));
            proof {
                assert(output@.take(old(output)@.len() as int) =~= old(output)@);
            }
        } else {
            proof {
                assert(output@.take(old(output)@.len() as int) =~= old(output)@);
            }
        }
    }

    /// The cursor moves: in a focused window, the simulation has the focus unless the
    /// panel holds the pointer.
    pub fn cursor_moved(&mut self, pointer_captured: bool) -> (r: Option<InputEventValue>)
        ensures
            old(self).window_focused ==> final(self).canvas_focused == !pointer_captured
                && (old(self).canvas_focused == !pointer_captured ==> r is None)
                && (old(self).canvas_focused != !pointer_captured ==> (r matches Some(e) && is_focus_edge(
                e,
                "canvas_focused"@,
                !pointer_captured,
            ))),
            !old(self).window_focused ==> r is None && final(self).canvas_focused == old(self).canvas_focused,
            final(self).input_focused == old(self).input_focused,
            final(self).window_focused == old(self).window_focused,
            final(self).interactions_reset == old(self).interactions_reset,
            final(self).simulation_pointer == old(self).simulation_pointer,
            final(self).simulation_keyboard == old(self).simulation_keyboard,
    {
        if self.window_focused {
            self.set_canvas_focused(!pointer_captured)
        } else {
            None
        }
    }

    /// The cursor leaves the window: the simulation loses the focus, the panel's keys go
    /// up, and the primary button goes up. Returns whether the cursor is to be set free.
    pub fn cursor_left(&mut self, panel: &mut SyntheticKeys, cursor_hidden: bool, output: &mut Vec<InputEventValue>) -> (r: bool)
        requires
            old(self).wf(),
            old(panel).wf(),
        ensures
            final(self).wf(),
            final(panel).wf(),
            extends(old(output)@, final(output)@),
            r == (old(self).simulation_pointer.down || cursor_hidden),
            !final(self).canvas_focused,
            !final(self).simulation_pointer.down,
            final(panel).down@.len() == 0,
            ({
                let added = appended(old(output)@, final(output)@);
                let e: int = if old(self).canvas_focused { 1 } else { 0 };
                let c: int = if old(self).simulation_pointer.down { 1 } else { 0 };
                &&& added.len() == e + old(panel).down@.len() + c
                &&& old(self).canvas_focused ==> is_focus_edge(added[0], "canvas_focused"@, false)
                &&& key_events_view(added.subrange(e, e + old(panel).down@.len())) == releases(
                    texts(old(panel).down@),
                )
                &&& old(self).simulation_pointer.down ==> added.last() == InputEventValue::MouseClick(Pressed::No)
            }),
            final(self).input_focused == old(self).input_focused,
            final(self).window_focused == old(self).window_focused,
            final(self).interactions_reset == old(self).interactions_reset,
            final(self).simulation_keyboard == old(self).simulation_keyboard,
    {
        let ghost out0 = output@;
        if let Some(edge) = self.set_canvas_focused(false) {
            output.push(edge);
        }
        let ghost out1 = output@;
        panel.release_all(output);
        let ghost out2 = output@;
        let r = self.release_sim_pointer(true, cursor_hidden, output);
        proof {
            assert(out1.take(out0.len() as int) =~= out0);
            assert(out2.take(out0.len() as int) =~= out0);
            assert(output@.take(out0.len() as int) =~= out0);
            let e: int = if old(self).canvas_focused { 1 } else { 0 };
            let added = appended(out0, output@);
            assert(added.subrange(e, e + old(panel).down@.len()) =~= appended(out1, out2));
            lemma_views_of_appended(out1, out2);
            if old(self).canvas_focused {
                assert(added[0] == out1[out0.len() as int]);
            }
        }
        r
    }

    /// The pointer moves by `(dx, dy)` on the device: a drag of the simulation while it
    /// holds the primary button.
    pub fn mouse_motion(&self, dx: i32, dy: i32) -> (r: Option<InputEventValue>)
        ensures
            self.simulation_pointer.down ==> r == Some(InputEventValue::MouseMove { x: dx, y: dy }),
            !self.simulation_pointer.down ==> r is None,
    {
        if self.simulation_pointer.is_down() {
            Some(InputEventValue::MouseMove { x: dx, y: dy })
        } else {
            None
        }
    }

    /// The application goes to the background: the window loses the focus and the
    /// interactions are reset.
    pub fn suspended(&mut self, panel: &mut SyntheticKeys, cursor_hidden: bool, output: &mut Vec<InputEventValue>) -> (r: bool)
        requires
            old(self).wf(),
            old(panel).wf(),
        ensures
            final(self).wf(),
            final(panel).wf(),
            !final(self).window_focused,
            final(self).interactions_reset,
            extends(old(output)@, final(output)@),
            !old(self).interactions_reset ==> {
                let added = appended(old(output)@, final(output)@);
                &&& !final(self).canvas_focused
                &&& !final(self).input_focused
                &&& !final(self).simulation_pointer.down
                &&& final(self).simulation_keyboard.view().active.len() == 0
                &&& added.len() == old(panel).down@.len() + 1
                &&& added.last() == InputEventValue::BlurredWindow
                &&& r == (old(self).simulation_pointer.down || cursor_hidden)
            },
            old(self).interactions_reset ==> final(output)@ == old(output)@ && !r,
    {
        self.window_focused = false;
        self.reset_interactions(panel, cursor_hidden, output)
    }

    /// The platform's batch of events is over: keys still waiting for a character go
    /// down with their own values.
    pub fn events_cleared(&mut self) -> (r: Vec<InputEventValue>)
        requires
            old(self).wf(),
        ensures
            final(self).wf(),
            final(self).same_flags(old(self)),
            final(self).simulation_keyboard.view().pending.len() == 0,
            ({
                let (a, d, e) = crate::simulation_input::flush_spec(
                    old(self).simulation_keyboard.view().active,
                    old(self).simulation_keyboard.view().dead,
                    old(self).simulation_keyboard.view().pending,
                );
                &&& final(self).simulation_keyboard.view().active == a
                &&& final(self).simulation_keyboard.view().dead == d
                &&& key_events_view(r@) == e
            }),
    {
        self.simulation_keyboard.flush_pending()
    }

    /// After the panel ran a frame: the keyboard focus of its text fields is recorded, and
    /// when the panel has just appeared, its keys and the primary button go up. Returns
    /// whether the cursor is to be set free.
    pub fn after_panel_frame(
        &mut self,
        ui_wants_keyboard: bool,
        was_visible: bool,
        is_visible: bool,
        panel: &mut SyntheticKeys,
        cursor_hidden: bool,
        output: &mut Vec<InputEventValue>,
    ) -> (r: bool)
        requires
            old(self).wf(),
            old(panel).wf(),
        ensures
            final(self).wf(),
            final(panel).wf(),
            extends(old(output)@, final(output)@),
            final(self).input_focused == ui_wants_keyboard,
            ({
                let added = appended(old(output)@, final(output)@);
                let e: int = if old(self).input_focused != ui_wants_keyboard { 1 } else { 0 };
                let c: int = if old(self).simulation_pointer.down { 1 } else { 0 };
                &&& old(self).input_focused != ui_wants_keyboard ==> is_focus_edge(
                    added[0],
                    "input_focused"@,
                    ui_wants_keyboard,
                )
                &&& !was_visible && is_visible ==> added.len() == e + old(panel).down@.len() + c
                    && key_events_view(added.subrange(e, e + old(panel).down@.len())) == releases(
                    texts(old(panel).down@),
                ) && final(panel).down@.len() == 0 && !final(self).simulation_pointer.down && r == (old(
                    self,
                ).simulation_pointer.down || cursor_hidden)
                &&& !(!was_visible && is_visible) ==> added.len() == e && *final(panel) == *old(panel)
                    && final(self).simulation_pointer == old(self).simulation_pointer && !r
            }),
            final(self).canvas_focused == old(self).canvas_focused,
            final(self).window_focused == old(self).window_focused,
            final(self).interactions_reset == old(self).interactions_reset,
            final(self).simulation_keyboard == old(self).simulation_keyboard,
    {
        let ghost out0 = output@;
        if let Some(edge) = self.set_input_focused(ui_wants_keyboard) {
            output.push(edge);
        }
        let ghost out1 = output@;
        let mut r = false;
        if !was_visible && is_visible {
            panel.release_all(output);
            let ghost out2 = output@;
            r = self.release_sim_pointer(true, cursor_hidden, output);
            proof {
                assert(out2.take(out0.len() as int) =~= out0);
                let e: int = if old(self).input_focused != ui_wants_keyboard { 1 } else { 0 };
                let added = appended(out0, output@);
                assert(added.subrange(e, e + old(panel).down@.len()) =~= appended(out1, out2));
                lemma_views_of_appended(out1, out2);
            }
        }
        proof {
            assert(out1.take(out0.len() as int) =~= out0);
            assert(output@.take(out0.len() as int) =~= out0);
            if old(self).input_focused != ui_wants_keyboard {
                assert(appended(out0, output@)[0] == out1[out0.len() as int]);
            }
        }
        r
    }
}

/// What `release_all` appended, viewed as key events, is the releases it states.
proof fn lemma_views_of_appended(before: Seq<InputEventValue>, after: Seq<InputEventValue>)
    requires
        extends(before, after),
    ensures
        key_events_view(appended(before, after)) == key_events_view(after).subrange(
            before.len() as int,
            after.len() as int,
        ),
        key_events_view(after) == key_events_view(before) + key_events_view(appended(before, after)),
{
    assert(key_events_view(appended(before, after)) =~= key_events_view(after).subrange(
        before.len() as int,
        after.len() as int,
    ));
    assert(after =~= before + appended(before, after));
    assert(key_events_view(after) =~= key_events_view(before) + key_events_view(appended(before, after)));
}

} // verus!
