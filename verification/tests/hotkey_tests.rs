#![allow(non_snake_case)]

use display_sim::boolean_actions::{trigger_hotkey_action_intern, ActionUsed};
use display_sim::input_types::{Input, Pressed};

#[test]
fn test_press__i___release__i() {
    let mut input_owned = Input::default();
    let input = &mut input_owned;
    trigger_hotkey_action_intern(input, "g", Pressed::Yes);
    assert_eq!(format!("{:?}", input.active_pressed_actions), "[(\"g\", NextCameraMovementMode(Increase))]");
    trigger_hotkey_action_intern(input, "g", Pressed::No);
    assert_eq!(format!("{:?}", input.active_pressed_actions), "[]");
}

#[test]
fn test_press__i_shift___done() {
    let mut input_owned = Input::default();
    let input = &mut input_owned;
    trigger_hotkey_action_intern(input, "g", Pressed::Yes);
    assert_eq!(format!("{:?}", input.active_pressed_actions), "[(\"g\", NextCameraMovementMode(Increase))]");
    trigger_hotkey_action_intern(input, "shift", Pressed::Yes);
    assert_eq!(
        format!("{:?}", input.active_pressed_actions),
        "[(\"shift+g\", NextCameraMovementMode(Decrease)), (\"shift\", Shift)]"
    );
}

#[test]
fn test_press__shift_i___done() {
    let mut input_owned = Input::default();
    let input = &mut input_owned;
    trigger_hotkey_action_intern(input, "shift", Pressed::Yes);
    assert_eq!(format!("{:?}", input.active_pressed_actions), "[(\"shift\", Shift)]");
    trigger_hotkey_action_intern(input, "g", Pressed::Yes);
    assert_eq!(
        format!("{:?}", input.active_pressed_actions),
        "[(\"shift\", Shift), (\"shift+g\", NextCameraMovementMode(Decrease))]"
    );
}

#[test]
fn test_press__i_shift___release__i() {
    let mut input_owned = Input::default();
    let input = &mut input_owned;
    trigger_hotkey_action_intern(input, "g", Pressed::Yes);
    assert_eq!(format!("{:?}", input.active_pressed_actions), "[(\"g\", NextCameraMovementMode(Increase))]");
    trigger_hotkey_action_intern(input, "shift", Pressed::Yes);
    assert_eq!(
        format!("{:?}", input.active_pressed_actions),
        "[(\"shift+g\", NextCameraMovementMode(Decrease)), (\"shift\", Shift)]"
    );
    trigger_hotkey_action_intern(input, "g", Pressed::No);
    assert_eq!(format!("{:?}", input.active_pressed_actions), "[(\"shift\", Shift)]");
}

#[test]
fn test_press__shift_i___release__shift() {
    let mut input_owned = Input::default();
    let input = &mut input_owned;
    trigger_hotkey_action_intern(input, "shift", Pressed::Yes);
    assert_eq!(format!("{:?}", input.active_pressed_actions), "[(\"shift\", Shift)]");
    trigger_hotkey_action_intern(input, "g", Pressed::Yes);
    assert_eq!(
        format!("{:?}", input.active_pressed_actions),
        "[(\"shift\", Shift), (\"shift+g\", NextCameraMovementMode(Decrease))]"
    );
    trigger_hotkey_action_intern(input, "shift", Pressed::No);
    assert_eq!(format!("{:?}", input.active_pressed_actions), "[(\"g\", NextCameraMovementMode(Increase))]");
}

#[test]
fn unbound_keys_are_reported_unused_with_their_code() {
    let mut input = Input::default();
    let used = trigger_hotkey_action_intern(&mut input, "not-a-hotkey", Pressed::Yes);
    assert_eq!(used, ActionUsed::No("not-a-hotkey".to_string()));
    assert!(input.active_pressed_actions.is_empty());
}

#[test]
fn pressing_a_held_action_again_is_absorbed() {
    let mut input = Input::default();
    assert_eq!(trigger_hotkey_action_intern(&mut input, "w", Pressed::Yes), ActionUsed::Yes);
    assert!(input.walk_forward);
    assert_eq!(trigger_hotkey_action_intern(&mut input, "w", Pressed::Yes), ActionUsed::Yes);
    assert_eq!(input.active_pressed_actions.len(), 1);
    assert_eq!(trigger_hotkey_action_intern(&mut input, "w", Pressed::No), ActionUsed::Yes);
    assert!(!input.walk_forward);
    assert!(input.active_pressed_actions.is_empty());
}

use display_sim::boolean_actions::trigger_hotkey_action;
use display_sim::general_types::IncDec;
use display_sim::simulation_core_state::{ControllerEvents, KeyEventKind};

fn resolution_keys() -> ControllerEvents {
    ControllerEvents {
        entries: vec![
            ("y".to_string(), KeyEventKind::Inc, 0),
            ("shift+y".to_string(), KeyEventKind::Dec, 0),
            ("front2back:vertical-lpp".to_string(), KeyEventKind::SetValue, 1),
        ],
    }
}

#[test]
fn controller_keys_drive_their_controller_inputs() {
    let events = resolution_keys();
    let mut input = Input::default();
    let mut inputs = vec![IncDec { increase: false, decrease: false }, IncDec { increase: false, decrease: false }];
    assert_eq!(trigger_hotkey_action(&mut input, &mut inputs, &events, "y", Pressed::Yes), ActionUsed::Yes);
    assert_eq!(inputs[0], IncDec { increase: true, decrease: false });
    assert_eq!(input.active_pressed_actions_2, vec!["y".to_string()]);
    assert!(input.active_pressed_actions.is_empty());
    assert_eq!(trigger_hotkey_action(&mut input, &mut inputs, &events, "y", Pressed::No), ActionUsed::Yes);
    assert_eq!(inputs[0], IncDec { increase: false, decrease: false });
    assert!(input.active_pressed_actions_2.is_empty());
}

#[test]
fn shift_turns_a_controller_key_into_its_modified_form() {
    let events = resolution_keys();
    let mut input = Input::default();
    let mut inputs = vec![IncDec { increase: false, decrease: false }, IncDec { increase: false, decrease: false }];
    trigger_hotkey_action(&mut input, &mut inputs, &events, "shift", Pressed::Yes);
    assert!(input.shift);
    trigger_hotkey_action(&mut input, &mut inputs, &events, "y", Pressed::Yes);
    assert_eq!(inputs[0], IncDec { increase: false, decrease: true });
    assert_eq!(input.active_pressed_actions_2, vec!["shift+y".to_string()]);
}

#[test]
fn keys_no_controller_answers_to_go_to_the_simulation_hotkeys() {
    let events = resolution_keys();
    let mut input = Input::default();
    let mut inputs = vec![IncDec { increase: false, decrease: false }];
    assert_eq!(trigger_hotkey_action(&mut input, &mut inputs, &events, "w", Pressed::Yes), ActionUsed::Yes);
    assert!(input.walk_forward);
    assert_eq!(
        trigger_hotkey_action(&mut input, &mut inputs, &events, "unknown", Pressed::Yes),
        ActionUsed::No("unknown".to_string())
    );
}

use display_sim::simulation_core_state::{build_controller_events, ControllerKeys};

fn keys(dec: &[&str], inc: &[&str], tag: &str) -> ControllerKeys {
    ControllerKeys {
        keys_dec: dec.iter().map(|k| k.to_string()).collect(),
        keys_inc: inc.iter().map(|k| k.to_string()).collect(),
        event_tag: tag.to_string(),
    }
}

#[test]
fn controller_table_numbers_the_controllers_in_order() {
    let table = build_controller_events(&vec![
        keys(&["shift+y", "internal-resolution-dec"], &["y", "internal-resolution-inc"], ""),
        keys(&["shift+k", "vertical-lpp-dec"], &["k", "vertical-lpp-inc"], "front2back:vertical-lpp"),
    ])
    .unwrap();
    assert_eq!(table.entries.len(), 9);
    assert_eq!(table.get("y"), Some((KeyEventKind::Inc, 0)));
    assert_eq!(table.get("shift+k"), Some((KeyEventKind::Dec, 1)));
    assert_eq!(table.get("front2back:vertical-lpp"), Some((KeyEventKind::SetValue, 1)));
    assert_eq!(table.get("q"), None);
}

#[test]
fn controller_table_refuses_a_key_claimed_twice() {
    let result = build_controller_events(&vec![keys(&["a"], &["b"], ""), keys(&["c"], &["b"], "")]);
    assert_eq!(result.err(), Some("controller_events panic! keys_inc already included 'b'.".to_string()));
}
