#![allow(non_snake_case)]

use display_sim::field_changer::{FieldChange, FieldChanger};
use display_sim::general_types::IncDec;
use display_sim::ui_controller::screen_curvature_kind::ScreenCurvatureKindOptions;

const INCDEC_DOWN: IncDec<bool> = IncDec { increase: false, decrease: true };
const INCDEC_UP: IncDec<bool> = IncDec { increase: true, decrease: false };
const INCDEC_NONE: IncDec<bool> = IncDec { increase: false, decrease: false };
const INCDEC_BOTH: IncDec<bool> = IncDec { increase: true, decrease: true };

fn sut<T>(incdec: IncDec<bool>) -> FieldChanger<T> {
    FieldChanger::new(incdec).set_trigger_handler()
}

#[test]
fn process_options__has_some_event_value__changes_parameter() {
    let mut actual = ScreenCurvatureKindOptions::Flat;
    sut(INCDEC_UP).set_event_value(Some(ScreenCurvatureKindOptions::Curved2)).process_options(&mut actual);
    assert_eq!(actual, ScreenCurvatureKindOptions::Curved2);
}

#[test]
fn process_options__with_false_incdec__does_not_change_parameter() {
    let mut actual = ScreenCurvatureKindOptions::Flat;
    sut(INCDEC_NONE).process_options(&mut actual);
    assert_eq!(actual, ScreenCurvatureKindOptions::Flat);
}

#[test]
fn process_options__with_true_inc__changes_parameter_up_as_expected() {
    let mut actual = ScreenCurvatureKindOptions::Flat;
    sut(INCDEC_UP).process_options(&mut actual);
    assert_eq!(actual, ScreenCurvatureKindOptions::Curved1);
}

#[test]
fn process_options__with_true_dec__changes_parameter_down_as_expected() {
    let mut actual = ScreenCurvatureKindOptions::Curved1;
    sut(INCDEC_DOWN).process_options(&mut actual);
    assert_eq!(actual, ScreenCurvatureKindOptions::Flat);
}

#[test]
fn process_options__with_true_incdec__does_not_change_parameter() {
    let mut actual = ScreenCurvatureKindOptions::Flat;
    sut(INCDEC_BOTH).process_options(&mut actual);
    assert_eq!(actual, ScreenCurvatureKindOptions::Flat);
}

#[test]
fn field_changer_trigger_handler__on_change__triggers() {
    let mut actual = ScreenCurvatureKindOptions::Flat;
    let change = FieldChanger::new(INCDEC_DOWN).set_trigger_handler().process_options(&mut actual);
    assert_eq!(change.triggered, true);
}

#[test]
fn set_event_value__has_some__changes_parameter() {
    let mut actual: i32 = 0;
    sut(INCDEC_UP).set_event_value(Some(3)).process_with_sums(&mut actual);
    assert_eq!(actual, 3);
}

#[test]
fn set_progression__with_false_incdec__does_not_change_parameter() {
    let mut actual: i32 = 0;
    sut(INCDEC_NONE).set_progression(1).process_with_sums(&mut actual);
    assert_eq!(actual, 0);
}

#[test]
fn set_progression__with_true_inc__changes_parameter_up_as_expected() {
    let mut actual: i32 = 0;
    sut(INCDEC_UP).set_progression(1).process_with_sums(&mut actual);
    assert_eq!(actual, 1);
}

#[test]
fn set_progression__with_true_dec__changes_parameter_down_as_expected() {
    let mut actual: i32 = 0;
    sut(INCDEC_DOWN).set_progression(1).process_with_sums(&mut actual);
    assert_eq!(actual, -1);
}

#[test]
fn set_progression__with_true_incdec__does_not_change_parameter() {
    let mut actual: i32 = 0;
    sut(INCDEC_BOTH).set_progression(1).process_with_sums(&mut actual);
    assert_eq!(actual, 0);
}

#[test]
fn set_min__when_going_down__blocks_change() {
    let mut actual: i32 = 0;
    sut(INCDEC_DOWN).set_progression(1).set_min(0).process_with_sums(&mut actual);
    assert_eq!(actual, 0);
}

#[test]
fn set_min__when_going_up__doesnt_block_change() {
    let mut actual: i32 = 0;
    sut(INCDEC_UP).set_progression(1).set_min(0).process_with_sums(&mut actual);
    assert_eq!(actual, 1);
}

#[test]
fn set_max__when_going_up__blocks_change() {
    let mut actual: i32 = 0;
    sut(INCDEC_UP).set_progression(1).set_max(0).process_with_sums(&mut actual);
    assert_eq!(actual, 0);
}

#[test]
fn set_max__when_going_down__blocks_change() {
    let mut actual: i32 = 0;
    sut(INCDEC_DOWN).set_progression(1).set_max(0).process_with_sums(&mut actual);
    assert_eq!(actual, -1);
}

#[test]
fn trigger_handler__on_change__triggers() {
    let mut actual: i32 = 0;
    let change = FieldChanger::new(INCDEC_DOWN).set_trigger_handler().set_progression(1).process_with_sums(&mut actual);
    assert_eq!(change.triggered, true);
}

#[test]
fn trigger_handler__on_blocked_change__doesnt_trigger() {
    let mut actual: i32 = 0;
    let change = FieldChanger::new(INCDEC_DOWN).set_trigger_handler().set_progression(1).set_min(0).process_with_sums(&mut actual);
    assert_eq!(change.triggered, false);
}

#[test]
fn on_increase__multiplies_by_progression() {
    let mut actual: i32 = 5;
    sut(INCDEC_UP).set_progression(3).process_with_multiplications(&mut actual);
    assert_eq!(actual, 15);
}

#[test]
fn on_decrease__divides_by_progression() {
    let mut actual: i32 = 15;
    sut(INCDEC_DOWN).set_progression(3).process_with_multiplications(&mut actual);
    assert_eq!(actual, 5);
}

#[test]
fn limits_are_reported_when_hit() {
    let mut actual: i32 = 0;
    let change = sut(INCDEC_DOWN).set_progression(1).set_min(0).process_with_sums(&mut actual);
    assert_eq!(change, FieldChange { minimum_notice: true, maximum_notice: false, triggered: false });
    let mut actual: i32 = 9;
    let change = sut(INCDEC_UP).set_progression(5).set_max(10).process_with_sums(&mut actual);
    assert_eq!(actual, 10);
    assert_eq!(change, FieldChange { minimum_notice: false, maximum_notice: true, triggered: true });
}

#[test]
fn negative_values_divide_toward_zero() {
    let mut actual: i32 = -7;
    sut(INCDEC_DOWN).set_progression(2).process_with_multiplications(&mut actual);
    assert_eq!(actual, -3);
}
