use display_sim::input_types::{InputEventValue, Pressed};
use display_sim::simulation_input::{
    browser_key_name, ElementState, KeyboardInput, ModifiersState, SimulationKeyboardInput, VirtualKeyCode,
};

fn key(scancode: u32, state: ElementState, virtual_keycode: VirtualKeyCode) -> KeyboardInput {
    KeyboardInput { scancode, state, virtual_keycode: Some(virtual_keycode) }
}

fn shift() -> ModifiersState {
    ModifiersState { shift: true, ctrl: false, alt: false, logo: false }
}

fn ctrl() -> ModifiersState {
    ModifiersState { shift: false, ctrl: true, alt: false, logo: false }
}

fn ctrl_alt() -> ModifiersState {
    ModifiersState { shift: false, ctrl: true, alt: true, logo: false }
}

fn assert_keyboard(event: &InputEventValue, expected_pressed: Pressed, expected_key: &str) {
    assert!(matches!(event, InputEventValue::Keyboard { pressed, key } if *pressed == expected_pressed && key == expected_key));
}

#[test]
fn printable_keys_follow_the_active_layout_character() {
    let mut input = SimulationKeyboardInput::default();
    assert!(input.on_keyboard_input(&key(16, ElementState::Pressed, VirtualKeyCode::Q)).is_empty());
    let pressed = input.on_received_character('a');
    assert_keyboard(&pressed[0], Pressed::Yes, "a");
    let released = input.on_keyboard_input(&key(16, ElementState::Released, VirtualKeyCode::Q));
    assert_keyboard(&released[0], Pressed::No, "a");
}

#[test]
fn releases_reuse_the_key_value_chosen_on_press() {
    let mut input = SimulationKeyboardInput::default();
    input.on_modifiers_changed(shift());
    input.on_keyboard_input(&key(13, ElementState::Pressed, VirtualKeyCode::Equals));
    input.on_received_character('+');
    input.on_modifiers_changed(ModifiersState::empty());
    let released = input.on_keyboard_input(&key(13, ElementState::Released, VirtualKeyCode::Equals));
    assert_keyboard(&released[0], Pressed::No, "+");
}

#[test]
fn auto_repeat_does_not_create_another_logical_key_owner() {
    let mut input = SimulationKeyboardInput::default();
    input.on_modifiers_changed(shift());
    input.on_keyboard_input(&key(13, ElementState::Pressed, VirtualKeyCode::Equals));
    input.on_received_character('+');
    input.on_modifiers_changed(ModifiersState::empty());
    let repeated = input.on_keyboard_input(&key(13, ElementState::Pressed, VirtualKeyCode::Equals));
    assert!(repeated.is_empty());
    let released = input.on_keyboard_input(&key(13, ElementState::Released, VirtualKeyCode::Equals));
    assert_keyboard(&released[0], Pressed::No, "+");
}

#[test]
fn logical_key_stays_down_until_every_physical_owner_releases() {
    let mut input = SimulationKeyboardInput::default();
    let left = input.on_keyboard_input(&key(42, ElementState::Pressed, VirtualKeyCode::LShift));
    assert_keyboard(&left[0], Pressed::Yes, "Shift");
    let right = input.on_keyboard_input(&key(54, ElementState::Pressed, VirtualKeyCode::RShift));
    assert!(right.is_empty());
    let left = input.on_keyboard_input(&key(42, ElementState::Released, VirtualKeyCode::LShift));
    assert!(left.is_empty());
    let right = input.on_keyboard_input(&key(54, ElementState::Released, VirtualKeyCode::RShift));
    assert_keyboard(&right[0], Pressed::No, "Shift");
}

#[test]
fn printable_release_before_character_delivery_still_balances_edges() {
    let mut input = SimulationKeyboardInput::default();
    input.on_modifiers_changed(ctrl());
    assert!(input.on_keyboard_input(&key(30, ElementState::Pressed, VirtualKeyCode::A)).is_empty());
    let events = input.on_keyboard_input(&key(30, ElementState::Released, VirtualKeyCode::A));
    assert_eq!(events.len(), 2);
    assert_keyboard(&events[0], Pressed::Yes, "a");
    assert_keyboard(&events[1], Pressed::No, "a");
}

#[test]
fn non_text_keys_are_immediate_and_shortcuts_have_browser_style_fallbacks() {
    let mut input = SimulationKeyboardInput::default();
    let arrow = input.on_keyboard_input(&key(105, ElementState::Pressed, VirtualKeyCode::Left));
    assert_keyboard(&arrow[0], Pressed::Yes, "ArrowLeft");
    input.on_modifiers_changed(ctrl());
    let shortcut = input.on_keyboard_input(&key(46, ElementState::Pressed, VirtualKeyCode::C));
    assert!(shortcut.is_empty());
    let shortcut = input.flush_pending();
    assert_keyboard(&shortcut[0], Pressed::Yes, "c");
}

#[test]
fn dead_keys_use_the_browser_value_before_the_tick() {
    let mut input = SimulationKeyboardInput::default();
    input.on_keyboard_input(&key(41, ElementState::Pressed, VirtualKeyCode::Grave));
    let events = input.flush_pending();
    assert_keyboard(&events[0], Pressed::Yes, "Dead");
    let released = input.on_keyboard_input(&key(41, ElementState::Released, VirtualKeyCode::Grave));
    assert_keyboard(&released[0], Pressed::No, "Dead");
}

#[test]
fn alt_gr_no_text_keys_remain_dead_instead_of_becoming_shortcuts() {
    let mut input = SimulationKeyboardInput::default();
    input.on_modifiers_changed(ctrl_alt());
    input.on_keyboard_input(&key(13, ElementState::Pressed, VirtualKeyCode::Equals));
    let events = input.flush_pending();
    assert_keyboard(&events[0], Pressed::Yes, "Dead");
}

#[test]
fn composed_text_does_not_replace_the_browser_keydown_value() {
    let mut input = SimulationKeyboardInput::default();
    input.on_keyboard_input(&key(41, ElementState::Pressed, VirtualKeyCode::Grave));
    input.flush_pending();
    input.on_keyboard_input(&key(41, ElementState::Released, VirtualKeyCode::Grave));

    input.on_keyboard_input(&key(18, ElementState::Pressed, VirtualKeyCode::E));
    let events = input.on_received_character('é');
    assert_keyboard(&events[0], Pressed::Yes, "e");
    let released = input.on_keyboard_input(&key(18, ElementState::Released, VirtualKeyCode::E));
    assert_keyboard(&released[0], Pressed::No, "e");
}

#[test]
fn ui_owned_activation_keys_never_emit_simulation_edges() {
    let mut input = SimulationKeyboardInput::default();
    let space = key(57, ElementState::Pressed, VirtualKeyCode::Space);
    assert!(input.on_keyboard_input_routed(&space, false).is_empty());
    assert!(input.on_received_character(' ').is_empty());
    assert!(input.on_keyboard_input_routed(&space, true).is_empty());
    assert!(input.on_keyboard_input_routed(&key(57, ElementState::Released, VirtualKeyCode::Space), true).is_empty());
}

#[test]
fn routed_key_release_survives_focus_moving_to_the_ui() {
    let mut input = SimulationKeyboardInput::default();
    input.on_keyboard_input_routed(&key(57, ElementState::Pressed, VirtualKeyCode::Space), true);
    let pressed = input.on_received_character(' ');
    assert_keyboard(&pressed[0], Pressed::Yes, " ");
    let released = input.on_keyboard_input_routed(&key(57, ElementState::Released, VirtualKeyCode::Space), false);
    assert_keyboard(&released[0], Pressed::No, " ");
}

#[test]
fn maps_native_keys_to_browser_key_values() {
    assert_eq!(browser_key_name(VirtualKeyCode::Equals, false), "=");
    assert_eq!(browser_key_name(VirtualKeyCode::Equals, true), "+");
    assert_eq!(browser_key_name(VirtualKeyCode::Minus, false), "-");
    assert_eq!(browser_key_name(VirtualKeyCode::Comma, false), ",");
    assert_eq!(browser_key_name(VirtualKeyCode::Period, false), ".");
    assert_eq!(browser_key_name(VirtualKeyCode::NumpadDecimal, false), ".");
    assert_eq!(browser_key_name(VirtualKeyCode::Left, false), "ArrowLeft");
    assert_eq!(browser_key_name(VirtualKeyCode::Space, false), " ");
    assert_eq!(browser_key_name(VirtualKeyCode::Capital, false), "CapsLock");
    assert_eq!(browser_key_name(VirtualKeyCode::Apps, false), "ContextMenu");
    assert_eq!(browser_key_name(VirtualKeyCode::Numlock, false), "NumLock");
    assert_eq!(browser_key_name(VirtualKeyCode::NextTrack, false), "MediaTrackNext");
    assert_eq!(browser_key_name(VirtualKeyCode::C, false), "c");
    assert_eq!(browser_key_name(VirtualKeyCode::C, true), "C");
}

#[test]
fn keyboard_clear_forgets_held_keys() {
    let mut input = SimulationKeyboardInput::new();
    input.on_keyboard_input(&key(105, ElementState::Pressed, VirtualKeyCode::Left));
    input.clear();
    assert!(input.on_keyboard_input(&key(105, ElementState::Released, VirtualKeyCode::Left)).is_empty());
}

#[test]
fn unknown_keys_emit_nothing() {
    let mut input = SimulationKeyboardInput::new();
    let none = KeyboardInput { scancode: 200, state: ElementState::Pressed, virtual_keycode: None };
    assert!(input.on_keyboard_input(&none).is_empty());
}
