use display_sim::input_types::{InputEventValue, Pressed};
use display_sim::native_entrypoint::{
    capture_buffer_len, needs_clean_redraw, screenshot_message, screenshot_size, section_from_name, ui_owns_activation,
    NativeSimulationState,
};
use display_sim::sim_ui::{SimPanelSection, SyntheticKeys};
use display_sim::simulation_input::{ElementState, KeyboardInput, VirtualKeyCode};

fn key_event(pressed: Pressed, key: &str) -> InputEventValue {
    InputEventValue::Keyboard { pressed, key: key.to_string() }
}

#[test]
fn capture_sections_are_found_by_name() {
    assert_eq!(section_from_name("presets"), Some(SimPanelSection::Presets));
    assert_eq!(section_from_name("image-scaling"), Some(SimPanelSection::ImageScaling));
    assert_eq!(section_from_name("geometry-and-textures"), Some(SimPanelSection::GeometryAndTextures));
    assert_eq!(section_from_name("webgl-settings"), Some(SimPanelSection::WebGlSettings));
    assert_eq!(section_from_name("extra"), Some(SimPanelSection::Extra));
    assert_eq!(section_from_name("Camera"), None);
    assert_eq!(section_from_name(""), None);
}

#[test]
fn screenshots_need_a_positive_size() {
    assert_eq!(screenshot_size(4, 3), Ok((4, 3)));
    assert_eq!(screenshot_size(0, 5), Err("invalid screenshot size 0x5".to_string()));
    assert_eq!(screenshot_size(-2, 3), Err("invalid screenshot size -2x3".to_string()));
}

#[test]
fn capture_buffers_hold_four_bytes_per_pixel() {
    assert_eq!(capture_buffer_len(2, 3), Ok(24));
    assert_eq!(capture_buffer_len(0, 1), Err("invalid UI capture size 0x1".to_string()));
    assert_eq!(capture_buffer_len(u32::MAX, u32::MAX), Err("UI capture buffer size overflow".to_string()));
}

#[test]
fn screenshot_outcomes_are_reported() {
    assert_eq!(screenshot_message(None), "Screenshot saved.");
    assert_eq!(screenshot_message(Some("disk full")), "Screenshot failed: disk full");
}

#[test]
fn only_activation_keys_belong_to_a_focused_panel() {
    assert!(ui_owns_activation(true, Some(VirtualKeyCode::Space)));
    assert!(ui_owns_activation(true, Some(VirtualKeyCode::Return)));
    assert!(ui_owns_activation(true, Some(VirtualKeyCode::NumpadEnter)));
    assert!(!ui_owns_activation(false, Some(VirtualKeyCode::Space)));
    assert!(!ui_owns_activation(true, Some(VirtualKeyCode::A)));
    assert!(!ui_owns_activation(true, None));
}

#[test]
fn clean_redraws_follow_screenshots_and_reuse() {
    assert!(needs_clean_redraw(true, true, true, false, false));
    assert!(needs_clean_redraw(true, false, false, false, false));
    assert!(!needs_clean_redraw(true, false, true, false, false));
    assert!(!needs_clean_redraw(false, true, false, true, true));
}

#[test]
fn canvas_focus_changes_are_edges() {
    let mut state = NativeSimulationState::new();
    assert_eq!(state.cursor_moved(false), Some(key_event(Pressed::Yes, "canvas_focused")));
    assert_eq!(state.cursor_moved(false), None);
    assert_eq!(state.cursor_moved(true), Some(key_event(Pressed::No, "canvas_focused")));
    let mut out = Vec::new();
    state.mouse_wheel(false, 7, &mut out);
    assert_eq!(out, vec![key_event(Pressed::Yes, "canvas_focused"), InputEventValue::MouseWheel(7)]);
    state.mouse_wheel(true, 8, &mut out);
    assert_eq!(out.len(), 2);
}

#[test]
fn an_unfocused_window_ignores_keys_and_clicks() {
    let mut state = NativeSimulationState::new();
    state.on_window_event(Some(false));
    let left = KeyboardInput { scancode: 105, state: ElementState::Pressed, virtual_keycode: Some(VirtualKeyCode::Left) };
    assert!(state.keyboard_input(&left, false).is_empty());
    assert_eq!(state.primary_button(true, false), None);
    state.on_window_event(Some(true));
    assert_eq!(state.keyboard_input(&left, false), vec![key_event(Pressed::Yes, "ArrowLeft")]);
    assert_eq!(state.primary_button(true, false), Some(InputEventValue::MouseClick(Pressed::Yes)));
    assert_eq!(state.mouse_motion(3, -4), Some(InputEventValue::MouseMove { x: 3, y: -4 }));
}

#[test]
fn focused_panel_keeps_its_activation_keys() {
    let mut state = NativeSimulationState::new();
    let space = KeyboardInput { scancode: 57, state: ElementState::Pressed, virtual_keycode: Some(VirtualKeyCode::Space) };
    assert!(state.keyboard_input(&space, true).is_empty());
    assert!(state.received_character(' ').is_empty());
}

#[test]
fn interactions_are_reset_once_until_the_window_is_focused_again() {
    let mut state = NativeSimulationState::new();
    let mut panel = SyntheticKeys::new();
    let mut out = Vec::new();
    panel.set_held("q", true, &mut out);
    state.primary_button(true, false);
    out.clear();
    state.on_window_event(Some(false));
    assert!(state.reset_interactions(&mut panel, false, &mut out));
    assert_eq!(out, vec![key_event(Pressed::No, "q"), InputEventValue::BlurredWindow]);
    assert!(!state.simulation_pointer.is_down());
    assert!(!state.reset_interactions(&mut panel, false, &mut out));
    assert_eq!(out.len(), 2);
    state.on_window_event(Some(true));
    assert!(state.reset_interactions(&mut panel, true, &mut out));
    assert_eq!(out.len(), 3);
}

#[test]
fn leaving_the_window_releases_everything() {
    let mut state = NativeSimulationState::new();
    let mut panel = SyntheticKeys::new();
    let mut out = Vec::new();
    state.cursor_moved(false);
    panel.set_held("e", true, &mut out);
    state.primary_button(true, false);
    out.clear();
    assert!(state.cursor_left(&mut panel, false, &mut out));
    assert_eq!(
        out,
        vec![key_event(Pressed::No, "canvas_focused"), key_event(Pressed::No, "e"), InputEventValue::MouseClick(Pressed::No)]
    );
}

#[test]
fn an_appearing_panel_takes_the_keys_and_the_button() {
    let mut state = NativeSimulationState::new();
    let mut panel = SyntheticKeys::new();
    let mut out = Vec::new();
    state.primary_button(true, false);
    assert!(!state.after_panel_frame(true, true, true, &mut panel, false, &mut out));
    assert_eq!(out, vec![key_event(Pressed::Yes, "input_focused")]);
    out.clear();
    assert!(state.after_panel_frame(true, false, true, &mut panel, false, &mut out));
    assert_eq!(out, vec![InputEventValue::MouseClick(Pressed::No)]);
}

#[test]
fn suspension_loses_the_focus() {
    let mut state = NativeSimulationState::new();
    let mut panel = SyntheticKeys::new();
    let mut out = Vec::new();
    assert!(!state.suspended(&mut panel, false, &mut out));
    assert_eq!(out, vec![InputEventValue::BlurredWindow]);
    assert!(!state.window_focused);
}

#[test]
fn shortcut_keys_come_out_when_the_batch_of_events_ends() {
    let mut state = NativeSimulationState::new();
    state.modifiers_changed(display_sim::simulation_input::ModifiersState { shift: false, ctrl: true, alt: false, logo: false });
    let c = KeyboardInput { scancode: 46, state: ElementState::Pressed, virtual_keycode: Some(VirtualKeyCode::C) };
    assert!(state.keyboard_input(&c, false).is_empty());
    assert_eq!(state.events_cleared(), vec![key_event(Pressed::Yes, "c")]);
    assert!(state.events_cleared().is_empty());
}
