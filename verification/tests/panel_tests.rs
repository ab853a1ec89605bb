use display_sim::input_types::{InputEventValue, Pressed};
use display_sim::sim_ui::{route_controller_index, SyntheticKeys};
use display_sim::simulation_core_state::{ControllerEvents, KeyEventKind};

#[test]
fn pulse_releases_on_the_next_frame() {
    let mut keys = SyntheticKeys::default();
    let mut events = Vec::new();
    keys.pulse("capture-framebuffer", &mut events);
    keys.pulse("capture-framebuffer", &mut events);
    assert_eq!(events.len(), 1);
    assert!(matches!(&events[0], InputEventValue::Keyboard { pressed: Pressed::Yes, key } if key == "capture-framebuffer"));
    events.clear();
    keys.begin_frame(&mut events);
    assert_eq!(events.len(), 1);
    assert!(matches!(&events[0], InputEventValue::Keyboard { pressed: Pressed::No, key } if key == "capture-framebuffer"));
}

#[test]
fn release_all_cleans_up_held_buttons() {
    let mut keys = SyntheticKeys::default();
    let mut events = Vec::new();
    keys.set_held("w", true, &mut events);
    events.clear();
    keys.release_all(&mut events);
    assert!(matches!(&events[0], InputEventValue::Keyboard { pressed: Pressed::No, key } if key == "w"));
    assert!(keys.down.is_empty());
}

#[test]
fn continuous_keys_not_seen_in_a_frame_are_released() {
    let mut keys = SyntheticKeys::default();
    let mut events = Vec::new();
    keys.begin_frame(&mut events);
    keys.set_continuous("a", true, &mut events);
    keys.set_continuous("d", true, &mut events);
    keys.end_frame(&mut events);
    assert_eq!(events.len(), 2);
    events.clear();
    keys.begin_frame(&mut events);
    keys.set_continuous("a", true, &mut events);
    keys.end_frame(&mut events);
    assert_eq!(events, vec![InputEventValue::Keyboard { pressed: Pressed::No, key: "d".to_string() }]);
    assert_eq!(keys.down, vec!["a".to_string()]);
}

#[test]
fn holding_twice_sends_one_event() {
    let mut keys = SyntheticKeys::default();
    let mut events = Vec::new();
    keys.set_held("w", true, &mut events);
    keys.set_held("w", true, &mut events);
    keys.set_held("w", false, &mut events);
    keys.set_held("w", false, &mut events);
    assert_eq!(
        events,
        vec![
            InputEventValue::Keyboard { pressed: Pressed::Yes, key: "w".to_string() },
            InputEventValue::Keyboard { pressed: Pressed::No, key: "w".to_string() },
        ]
    );
}

#[test]
fn controller_values_are_routed_by_tag_to_set_events() {
    let events = ControllerEvents {
        entries: vec![
            ("front2back:blur-level".to_string(), KeyEventKind::SetValue, 3),
            ("blur-inc".to_string(), KeyEventKind::Inc, 3),
        ],
    };
    assert_eq!(route_controller_index(&events, "front2back:blur-level"), Ok(3));
    assert_eq!(route_controller_index(&events, "blur-inc"), Err("blur-inc is not a set event".to_string()));
    assert_eq!(route_controller_index(&events, "nope"), Err("unknown controller event nope".to_string()));
}
