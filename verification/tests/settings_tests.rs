use display_sim::general_types::OptionCursor;
use display_sim::internal_resolution::InternalResolution;
use display_sim::pixels_shadow::ShadowShape;
use display_sim::ui_controller::brightness_color::BrightnessColor;
use display_sim::ui_controller::filter_preset::{settle_filter_preset, FilterPresetOptions};
use display_sim::ui_controller::vertical_lpp::VerticalLpp;
use display_sim::ui_controller::UiEvent;

#[test]
fn test_from_str_to_str() {
    let presets: [FilterPresetOptions; 6] = [
        FilterPresetOptions::Sharp1,
        FilterPresetOptions::CrtApertureGrille1,
        FilterPresetOptions::CrtShadowMask1,
        FilterPresetOptions::CrtShadowMask2,
        FilterPresetOptions::DemoFlight1,
        FilterPresetOptions::Custom,
    ];
    for preset in presets.iter() {
        assert_eq!(FilterPresetOptions::from_str(preset.to_string().as_ref()).unwrap(), *preset);
    }
}

#[test]
fn unknown_preset_names_are_rejected() {
    assert_eq!(FilterPresetOptions::from_str("demo-flight-1"), Err("Unknown name for a preset".to_string()));
    assert_eq!(FilterPresetOptions::default(), FilterPresetOptions::CrtApertureGrille1);
    assert_eq!(FilterPresetOptions::DemoFlight1.get_description(), "Flight Demo");
}

#[test]
fn internal_resolution_steps_through_the_classic_heights() {
    let mut r = InternalResolution::default();
    assert_eq!((r.width(), r.height()), (3840, 2160));
    assert_eq!(r.to_string(), "4K");
    r.set_resolution(720);
    assert_eq!((r.width(), r.height()), (1280, 720));
    assert_eq!(r.to_string(), "720p");
    r.previous_option();
    assert_eq!((r.width(), r.height()), (640, 486));
    r.previous_option();
    assert_eq!((r.width(), r.height()), (640, 480));
    r.next_option();
    assert_eq!(r.height(), 486);
    r.next_option();
    assert_eq!(r.height(), 720);
    r.next_option();
    assert_eq!((r.width(), r.height()), (1920, 1080));
    r.next_option();
    assert_eq!(r.height(), 2160);
}

#[test]
fn internal_resolution_falls_back_under_the_texture_limit() {
    let mut r = InternalResolution::default();
    r.set_max_texture_size(2000);
    r.set_resolution(1080);
    assert_eq!(r.height(), 1080);
    assert!(!r.has_reached_maximum_limit());
    r.next_option();
    assert_eq!((r.width(), r.height()), (1920, 1080));
    assert!(r.has_reached_maximum_limit());
}

#[test]
fn internal_resolution_bottom_is_marked() {
    let mut r = InternalResolution::default();
    r.set_resolution(3);
    r.previous_option();
    assert_eq!(r.height(), 3);
    assert!(r.has_reached_minimum_limit());
    assert_eq!(r.to_string(), "3p");
}

#[test]
fn shadow_shapes_wrap_around() {
    let mut s = ShadowShape { value: 23 };
    s.next_option();
    assert_eq!(s.value, 0);
    s.previous_option();
    assert_eq!(s.value, 23);
    assert_eq!(s.to_string(), "23");
}

#[test]
fn brightness_color_is_reported_in_hexadecimal() {
    let c = BrightnessColor::from(0x00FF_FFFF);
    assert_eq!(
        c.dispatch_event(),
        UiEvent::StringEvent("back2front:change_brightness_color".to_string(), "#FFFFFF".to_string())
    );
    let d = BrightnessColor::from(-1);
    assert_eq!(d.dispatch_event(), UiEvent::StringEvent("back2front:change_brightness_color".to_string(), "#FFFFFFFF".to_string()));
}

#[test]
fn vertical_lpp_is_clamped_and_reported() {
    let mut lpp = VerticalLpp::from(20);
    lpp.read_key_inc(true);
    lpp.pre_process_input();
    let (changed, events) = lpp.update(true);
    assert!(!changed);
    assert_eq!(lpp.value, 20);
    assert_eq!(events, vec![UiEvent::MaximumValue("20".to_string())]);

    let mut lpp = VerticalLpp::from(3);
    lpp.read_key_dec(true);
    lpp.pre_process_input();
    let (changed, events) = lpp.update(true);
    assert!(changed);
    assert_eq!(lpp.value, 2);
    assert_eq!(
        events,
        vec![
            UiEvent::TopMessage("V. lines per pixel: 2".to_string()),
            UiEvent::StringEvent("back2front:change_vertical_lpp".to_string(), "2".to_string()),
        ]
    );
}

use display_sim::general_types::Size2D;
use display_sim::simulation_core_ticker::{apply_input_event, calculate_aspect_ratio_from_image_size};
use display_sim::input_types::{Input, InputEventValue, Pressed};

#[test]
fn aspect_ratios_follow_the_console_screens() {
    assert_eq!(
        calculate_aspect_ratio_from_image_size(Size2D { width: 160, height: 144 }),
        ("1.11:1 (Game Boy) on full image.", (111, 100))
    );
    assert_eq!(calculate_aspect_ratio_from_image_size(Size2D { width: 256, height: 224 }), ("4:3 on full image.", (4, 3)));
    assert_eq!(
        calculate_aspect_ratio_from_image_size(Size2D { width: 1920, height: 1080 }),
        ("Squared pixels.", (1920, 1080))
    );
    assert_eq!(calculate_aspect_ratio_from_image_size(Size2D { width: 480, height: 272 }).1, (44, 25));
}

#[test]
fn changed_filters_turn_a_named_preset_into_the_custom_one() {
    assert_eq!(settle_filter_preset(FilterPresetOptions::Sharp1, false, true), (FilterPresetOptions::Custom, false, true));
    assert_eq!(settle_filter_preset(FilterPresetOptions::Custom, false, true), (FilterPresetOptions::Custom, true, false));
    assert_eq!(settle_filter_preset(FilterPresetOptions::DemoFlight1, false, true), (FilterPresetOptions::DemoFlight1, false, false));
    assert_eq!(settle_filter_preset(FilterPresetOptions::CrtShadowMask2, true, false), (FilterPresetOptions::CrtShadowMask2, true, false));
}

#[test]
fn input_events_are_kept_for_the_tick_and_hotkeys_handed_back() {
    let mut input = Input::new(7);
    assert_eq!(apply_input_event(&mut input, InputEventValue::Keyboard { pressed: Pressed::Yes, key: "ArrowLeft".to_string() }), Some(("arrowleft".to_string(), Pressed::Yes)));
    assert_eq!(apply_input_event(&mut input, InputEventValue::MouseClick(Pressed::No)), Some(("mouse_click".to_string(), Pressed::No)));
    assert_eq!(apply_input_event(&mut input, InputEventValue::MouseMove { x: 3, y: -2 }), None);
    assert_eq!((input.mouse_position_x, input.mouse_position_y), (3, -2));
    apply_input_event(&mut input, InputEventValue::MouseWheel(5));
    assert_eq!(input.mouse_scroll_y_bits, 0);
    input.canvas_focused = true;
    apply_input_event(&mut input, InputEventValue::MouseWheel(5));
    assert_eq!(input.mouse_scroll_y_bits, 5);
    apply_input_event(&mut input, InputEventValue::ViewportResize(640, 480));
    assert_eq!(input.event_viewport_resize.map(|s| (s.width, s.height)), Some((640, 480)));
    apply_input_event(&mut input, InputEventValue::BlurredWindow);
    assert!(!input.canvas_focused);
    assert!(input.event_viewport_resize.is_none());
    assert_eq!(input.now_bits, 7);
}
