use display_sim::simulation_command::{
    ControllerValue, Pressed, RecordedSimulationCommand, SimulationCommand, SimulationCommandBus, SimulationCommandPlayer, SimulationRecording,
    SIMULATION_RECORDING_FORMAT_VERSION,
};

fn key(pressed: Pressed) -> SimulationCommand {
    SimulationCommand::Keyboard { pressed, key: "w".into() }
}

#[test]
fn controller_values_are_strict_and_preserve_numeric_casts() {
    let numeric = ControllerValue::Number(42.75f64.to_bits());
    assert_eq!(f64::from_bits(numeric.number_bits().unwrap()), 42.75);
    assert_eq!(f64::from_bits(numeric.number_bits().unwrap()) as i32, 42);
    let text = ControllerValue::Text("17".into());
    assert_eq!(text.to_text().unwrap(), "17");
    assert!(text.number_bits().is_err());
    assert!(numeric.to_text().is_err());
}

#[test]
fn core_deferred_commands_stay_on_the_bus_without_being_recorded_twice() {
    let press = key(Pressed::Yes);
    let release = key(Pressed::No);
    let mut bus = SimulationCommandBus::default();
    bus.start_recording();
    bus.emit_all(vec![press.clone(), release.clone()]);
    assert_eq!(bus.drain_for_tick(), vec![press, release.clone()]);
    bus.defer(vec![release.clone()]);
    assert_eq!(bus.pending_len(), 1);
    assert_eq!(bus.drain_for_tick(), vec![release]);

    let recording = bus.finish_recording().unwrap();
    assert_eq!(recording.commands.len(), 2);
    assert!(recording.commands.iter().all(|command| command.tick == 0));
}

#[test]
fn recording_validation_rejects_non_fifo_order() {
    let recording = SimulationRecording {
        format_version: SIMULATION_RECORDING_FORMAT_VERSION,
        total_ticks: 1,
        commands: vec![RecordedSimulationCommand {
            tick: 0,
            order: 1,
            command: SimulationCommand::BlurredWindow,
        }],
    };
    assert!(recording.validate().is_err());
}

#[test]
fn playback_preserves_trailing_empty_ticks() {
    let mut bus = SimulationCommandBus::default();
    bus.start_recording();
    bus.emit(key(Pressed::Yes));
    bus.drain_for_tick();
    bus.drain_for_tick();
    bus.drain_for_tick();

    let recording = bus.finish_recording().unwrap();
    assert_eq!(recording.total_ticks, 3);
    let mut player = SimulationCommandPlayer::new(recording).unwrap();
    let mut replay_bus = SimulationCommandBus::default();
    assert_eq!(player.emit_next_tick(&mut replay_bus), 1);
    assert!(!player.is_finished());
    assert_eq!(player.emit_next_tick(&mut replay_bus), 0);
    assert!(!player.is_finished());
    assert_eq!(player.emit_next_tick(&mut replay_bus), 0);
    assert!(player.is_finished());
}

#[test]
fn recording_validation_rejects_unknown_versions_and_out_of_range_ticks() {
    let unknown_version = SimulationRecording {
        format_version: SIMULATION_RECORDING_FORMAT_VERSION + 1,
        total_ticks: 0,
        commands: Vec::new(),
    };
    assert!(unknown_version.validate().is_err());

    let out_of_range = SimulationRecording {
        format_version: SIMULATION_RECORDING_FORMAT_VERSION,
        total_ticks: 1,
        commands: vec![RecordedSimulationCommand {
            tick: 1,
            order: 0,
            command: SimulationCommand::BlurredWindow,
        }],
    };
    assert!(out_of_range.validate().is_err());
}

#[test]
fn recording_replays_tick_order() {
    let mut bus = SimulationCommandBus::default();
    bus.start_recording();
    bus.emit(key(Pressed::Yes));
    assert_eq!(bus.drain_for_tick().len(), 1);
    assert!(bus.drain_for_tick().is_empty());
    bus.emit(SimulationCommand::MouseMove { x: 3, y: -2 });
    bus.emit(key(Pressed::No));
    assert_eq!(bus.drain_for_tick().len(), 2);

    let recording = bus.finish_recording().unwrap();
    assert_eq!(recording.total_ticks, 3);
    recording.validate().unwrap();

    let mut player = SimulationCommandPlayer::new(recording.clone()).unwrap();
    let mut replay_bus = SimulationCommandBus::default();
    assert_eq!(player.emit_next_tick(&mut replay_bus), 1);
    assert_eq!(replay_bus.drain_for_tick()[0], recording.commands[0].command);
    assert_eq!(player.emit_next_tick(&mut replay_bus), 0);
    assert!(replay_bus.drain_for_tick().is_empty());
    assert_eq!(player.emit_next_tick(&mut replay_bus), 2);
    assert_eq!(replay_bus.drain_for_tick().len(), 2);
    assert!(player.is_finished());
    assert_eq!(player.emit_next_tick(&mut replay_bus), 0);
}

#[test]
fn a_finished_recording_is_valid_and_not_recording_anymore() {
    let mut bus = SimulationCommandBus::default();
    assert!(bus.finish_recording().is_none());
    bus.start_recording();
    assert!(bus.is_recording());
    bus.emit(SimulationCommand::BlurredWindow);
    bus.emit(SimulationCommand::ViewportResize(1_920, 1_080));
    bus.drain_for_tick();
    let recording = bus.finish_recording().unwrap();
    assert!(!bus.is_recording());
    assert_eq!(recording.commands[1].order, 1);
    assert!(recording.validate().is_ok());
}

#[test]
fn recordings_stay_playable_through_any_bus_calls() {
    let mut bus = SimulationCommandBus::new();
    bus.drain_for_tick();
    bus.start_recording();
    bus.emit(key(Pressed::Yes));
    bus.drain_for_tick();
    bus.defer(vec![key(Pressed::No)]);
    bus.emit_all(vec![key(Pressed::Yes), key(Pressed::No)]);
    bus.drain_for_tick();
    bus.drain_for_tick();
    let recording = bus.finish_recording().unwrap();
    assert!(recording.validate().is_ok());
    assert_eq!(recording.total_ticks, 3);
    assert_eq!(recording.commands.len(), 3);
    assert!(!bus.is_recording());
    assert!(bus.finish_recording().is_none());
}
