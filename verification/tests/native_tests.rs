use display_sim::input_types::{InputEventValue, Pressed};
use display_sim::native::{first_free_screenshot_index, flip_rgba_rows, screenshot_file_name, Timings};
use display_sim::simulation_input::{KeyOwners, SimulationPointerInput};
use display_sim::sim_ui::{PanelEventSink, SectionStates, SimPanelSection};

#[test]
fn flips_screenshot_rows() {
    let mut pixels = vec![1, 2, 3, 4, 5, 6, 7, 8];
    flip_rgba_rows(&mut pixels, 1, 2).unwrap();
    assert_eq!(pixels, vec![5, 6, 7, 8, 1, 2, 3, 4]);
}

#[test]
fn flipping_checks_the_buffer_size() {
    let mut pixels = vec![1, 2, 3];
    assert_eq!(
        flip_rgba_rows(&mut pixels, 1, 1),
        Err("screenshot buffer has 3 bytes, expected 4".to_string())
    );
    assert_eq!(pixels, vec![1, 2, 3]);
    assert_eq!(flip_rgba_rows(&mut pixels, usize::MAX, 1), Err("screenshot row size overflow".to_string()));
    let mut odd = vec![1, 1, 1, 1, 2, 2, 2, 2, 3, 3, 3, 3];
    flip_rgba_rows(&mut odd, 1, 3).unwrap();
    assert_eq!(odd, vec![3, 3, 3, 3, 2, 2, 2, 2, 1, 1, 1, 1]);
}

#[test]
fn screenshot_names_are_numbered() {
    assert_eq!(screenshot_file_name(1), "screenshot-1.png");
    assert_eq!(screenshot_file_name(42), "screenshot-42.png");
}

#[test]
fn primary_pointer_edges_are_balanced_and_ui_presses_are_blocked() {
    let mut input = SimulationPointerInput::default();
    assert!(input.on_primary_button(true, true).is_none());
    assert!(matches!(input.on_primary_button(true, false), Some(InputEventValue::MouseClick(Pressed::Yes))));
    assert!(input.on_primary_button(true, false).is_none());
    assert!(matches!(input.on_primary_button(false, true), Some(InputEventValue::MouseClick(Pressed::No))));
    assert!(input.on_primary_button(false, false).is_none());
    assert!(!input.is_down());
    input.on_primary_button(true, false);
    input.clear();
    assert!(input.release().is_none());
}

#[test]
fn frames_run_once_per_period() {
    let mut t = Timings::new(1_000, 100);
    assert!(t.frame_due(1_000, true));
    assert!(!t.frame_due(1_050, true));
    assert!(!t.frame_due(1_200, false));
    assert!(t.frame_due(1_100, true));
    assert!(!t.frame_due(900, true));
}

#[test]
fn sink_drain_is_atomic() {
    let mut sink = PanelEventSink::default();
    sink.set_fps(59.5f32.to_bits());
    sink.push_message("hello".to_string());
    sink.request_toggle();
    let drained = sink.drain();
    assert_eq!(drained.fps_bits.map(f32::from_bits), Some(59.5));
    assert_eq!(drained.messages, vec!["hello".to_string()]);
    assert_eq!(drained.toggle_requests, 1);
    let again = sink.drain();
    assert_eq!(again.fps_bits, None);
    assert!(again.messages.is_empty());
    assert_eq!(again.toggle_requests, 0);
}

#[test]
fn opening_one_section_closes_the_others() {
    let mut s = SectionStates::new();
    assert!(s.presets && s.performance);
    s.open_only(SimPanelSection::Camera);
    assert!(s.camera);
    assert!(!s.presets && !s.performance && !s.colors && !s.extra);
}

#[test]
fn shared_logical_key_is_released_by_its_last_owner() {
    let mut keys = KeyOwners::new();
    assert_eq!(keys.press(30, "a".to_string()), Some(InputEventValue::Keyboard { pressed: Pressed::Yes, key: "a".to_string() }));
    assert_eq!(keys.press(31, "a".to_string()), None);
    assert_eq!(keys.release(30), None);
    assert_eq!(keys.release(99), None);
    assert_eq!(keys.release(31), Some(InputEventValue::Keyboard { pressed: Pressed::No, key: "a".to_string() }));
    assert!(keys.active.is_empty());
}

#[test]
fn the_next_screenshot_takes_the_first_free_number() {
    use_free(&[], 1);
    use_free(&[1, 2, 4], 3);
    use_free(&[2, 3], 1);
    use_free(&[3, 1, 2], 4);
}

fn use_free(taken: &[u64], expected: u64) {
    assert_eq!(first_free_screenshot_index(&taken.to_vec()), Some(expected));
}
