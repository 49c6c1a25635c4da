use xxmapper::controllers::evdev::{abs_code_name, key_code_name, AxisSpec};

#[test]
fn axis_spec_center_for_signed_range() {
    let spec = AxisSpec::from_range(-32768, 32767, 0);
    assert_eq!(spec.center, 0);
    assert!(spec.is_center(0));
    assert!(spec.is_center(1500));
    assert!(!spec.is_center(4000));
}

#[test]
fn axis_spec_center_for_unsigned_range() {
    let spec = AxisSpec::from_range(0, 255, 0);
    assert_eq!(spec.center, 127);
    assert!(spec.is_center(127));
    assert!(spec.is_center(120));
    assert!(!spec.is_center(20));
    assert!(!spec.is_center(250));
}

#[test]
fn axis_spec_respects_hardware_flat() {
    let spec = AxisSpec::from_range(0, 255, 30);
    assert_eq!(spec.deadzone, 30);
}

#[test]
fn key_names_cover_gamepad_codes() {
    assert_eq!(key_code_name(304), "BTN_SOUTH");
    assert_eq!(key_code_name(317), "BTN_THUMBL");
    assert_eq!(key_code_name(313), "BTN_TR2");
}

#[test]
fn abs_names_cover_stick_and_hat_codes() {
    assert_eq!(abs_code_name(1), "ABS_Y");
    assert_eq!(abs_code_name(16), "ABS_HAT0X");
    assert_eq!(abs_code_name(17), "ABS_HAT0Y");
}

#[test]
fn unknown_codes_use_decimal_names() {
    assert_eq!(key_code_name(1), "KEY_ESC");
    assert_eq!(key_code_name(2), "KEY_1");
    assert_eq!(key_code_name(11), "KEY_10");
    assert_eq!(key_code_name(0), "KEY_0");
    assert_eq!(key_code_name(65535), "KEY_65535");
    assert_eq!(abs_code_name(6), "ABS_THROTTLE");
    assert_eq!(abs_code_name(100), "ABS_100");
}

#[test]
fn small_ranges_fall_back_to_unit_deadzone() {
    let spec = AxisSpec::from_range(-1, 1, 0);
    assert_eq!(spec.center, 0);
    assert_eq!(spec.deadzone, 1);
    assert!(spec.is_moved(-2));
    assert!(!spec.is_moved(1));
}

use xxmapper::controllers::evdev::{abs_infos_fit, build_axis_table, AbsInfo};

fn info(code: u16, minimum: i32, maximum: i32, flat: i32) -> AbsInfo {
    AbsInfo {
        code,
        minimum,
        maximum,
        flat,
    }
}

#[test]
fn axis_table_skips_unreported_axes() {
    let infos = vec![
        info(0, -32768, 32767, 16),
        info(1, 0, 0, 0),
        info(2, 0, 255, 0),
        info(16, -1, 1, 0),
    ];
    assert!(abs_infos_fit(&infos));
    let table = build_axis_table(&infos);
    assert_eq!(table.len(), 3);
    assert!(!table.contains_key(&1));
    let x = table[&0];
    assert_eq!((x.min, x.max, x.center, x.deadzone), (-32768, 32767, 0, 16));
    let z = table[&2];
    assert_eq!((z.center, z.deadzone), (127, 12));
    let hat = table[&16];
    assert_eq!((hat.center, hat.deadzone), (0, 1));
}

#[test]
fn axis_ranges_that_overflow_are_refused() {
    assert!(!abs_infos_fit(&vec![info(0, i32::MIN, i32::MAX, 0)]));
    assert!(abs_infos_fit(&vec![info(0, 0, 0, 0)]));
    assert!(abs_infos_fit(&vec![]));
}

#[test]
fn dead_zone_falls_back_to_five_percent_or_one() {
    assert_eq!(AxisSpec::from_range(0, 1000, 0).deadzone, 50);
    assert_eq!(AxisSpec::from_range(0, 10, 0).deadzone, 1);
    assert_eq!(AxisSpec::from_range(-100, 100, 0).center, 0);
    assert_eq!(AxisSpec::from_range(10, 20, 0).center, 15);
    assert!(AxisSpec::from_range(0, 255, 0).is_moved(250));
}
