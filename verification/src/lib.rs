use vstd::prelude::*;

pub mod app_error;
pub mod app_events;
pub mod boolean_actions;
pub mod boolean_button;
pub mod camera;
pub mod field_changer;
pub mod general_types;
pub mod input_types;
pub mod internal_resolution;
pub mod math;
pub mod native;
pub mod native_entrypoint;
pub mod pixels_shadow;
pub mod render_types;
pub mod simulation_command;
pub mod simulation_context;
pub mod simulation_core_state;
pub mod simulation_core_ticker;
pub mod simulation_input;
pub mod sim_ui;
pub mod text;
pub mod ui_controller;
pub mod webgl;

verus! {

} // verus!
