use std::collections::HashMap;

use xxmapper::controllers::discovery::{
    caps_are_gamepad, classify_probed_device, device_caps, is_event_node, is_gamepad_key,
    sort_by_device_path, DeviceCaps, DiscoveredController,
};
use xxmapper::controllers::identity::{identity_from_properties, ControllerIdentity};

#[test]
fn joystick_with_axes_and_buttons_is_gamepad() {
    let caps = DeviceCaps {
        name: "Generic USB Joystick".into(),
        abs_axes: vec![0, 1, 2, 3, 4, 5],
        keys: vec![288, 289, 290, 291, 292],
    };
    assert!(caps_are_gamepad(&caps));
}

#[test]
fn modern_pad_with_hat_is_gamepad() {
    let caps = DeviceCaps {
        name: "DualShock".into(),
        abs_axes: vec![0, 1, 3, 4, 16, 17],
        keys: vec![304, 305, 307, 308, 310, 311, 314, 315, 317, 318],
    };
    assert!(caps_are_gamepad(&caps));
}

#[test]
fn keyboard_is_not_gamepad() {
    let caps = DeviceCaps {
        name: "Keyboard".into(),
        abs_axes: vec![],
        keys: vec![1, 2, 3, 28, 57],
    };
    assert!(!caps_are_gamepad(&caps));
}

#[test]
fn mouse_is_not_gamepad() {
    let caps = DeviceCaps {
        name: "Mouse".into(),
        abs_axes: vec![],
        keys: vec![272, 273, 274],
    };
    assert!(!caps_are_gamepad(&caps));
}

#[test]
fn axes_without_buttons_is_not_gamepad() {
    let caps = DeviceCaps {
        name: "Touchscreen".into(),
        abs_axes: vec![0, 1, 47, 48, 49],
        keys: vec![330],
    };
    assert!(!caps_are_gamepad(&caps));
}

#[test]
fn dpad_buttons_count_as_gamepad_keys() {
    assert!(is_gamepad_key(544));
    assert!(is_gamepad_key(547));
    assert!(!is_gamepad_key(548));
    assert!(!is_gamepad_key(287));
    assert!(is_gamepad_key(288));
    assert!(is_gamepad_key(318));
    assert!(!is_gamepad_key(319));
}

#[test]
fn device_caps_keeps_probe_order_and_ranges() {
    let caps = device_caps(
        Some("Pad"),
        &vec![17, 0, 47, 3, 16],
        &vec![330, 318, 304, 544, 288, 287],
    );
    assert_eq!(caps.name, "Pad");
    assert_eq!(caps.abs_axes, vec![0, 3, 16, 17]);
    // Only 288..=318 is probed; 544 and 330 are not collected.
    assert_eq!(caps.keys, vec![288, 304, 318]);
}

#[test]
fn device_caps_names_unknown_devices() {
    let caps = device_caps(None, &vec![], &vec![]);
    assert_eq!(caps.name, "Unknown Controller");
    assert!(caps.abs_axes.is_empty());
    assert!(caps.keys.is_empty());
}

#[test]
fn default_caps_are_empty() {
    let caps = DeviceCaps::default();
    assert!(caps.name.is_empty());
    assert!(!caps_are_gamepad(&caps));
}

#[test]
fn event_nodes_are_recognised_by_prefix() {
    assert!(is_event_node("event0"));
    assert!(is_event_node("event12"));
    assert!(is_event_node("event"));
    assert!(!is_event_node("js0"));
    assert!(!is_event_node("mouse0"));
    assert!(!is_event_node("even"));
}

fn props(pairs: &[(&str, &str)]) -> HashMap<String, String> {
    pairs
        .iter()
        .map(|(k, v)| (k.to_string(), v.to_string()))
        .collect()
}

fn pad_caps() -> DeviceCaps {
    DeviceCaps {
        name: "Evdev Pad".into(),
        abs_axes: vec![0, 1],
        keys: vec![304],
    }
}

#[test]
fn classify_uses_udev_name_and_devpath() {
    let p = props(&[
        ("ID_VENDOR_ID", "0079"),
        ("ID_MODEL_ID", "0006"),
        ("ID_PATH", "pci-0000:00:14.0-usb-0:3"),
        ("NAME", "Udev Pad"),
        ("DEVPATH", "/devices/x/input/input5"),
    ]);
    let found = classify_probed_device(
        &p,
        &pad_caps(),
        "/dev/input/event5".to_string(),
        "/sys/class/input/event5",
    )
    .unwrap();
    assert_eq!(found.identity.name, "Udev Pad");
    assert_eq!(found.device_path, "/dev/input/event5");
    assert_eq!(found.devpath, "/devices/x/input/input5");
    assert_eq!(found.identity.vendor_id, "0079");
}

#[test]
fn classify_falls_back_to_evdev_name_and_syspath() {
    let p = props(&[("ID_VENDOR_ID", "0079")]);
    let found = classify_probed_device(
        &p,
        &pad_caps(),
        "/dev/input/event5".to_string(),
        "/sys/class/input/event5",
    )
    .unwrap();
    assert_eq!(found.identity.name, "Evdev Pad");
    assert_eq!(found.devpath, "/sys/class/input/event5");
    assert_eq!(found.identity.product_id, "0000");
}

#[test]
fn classify_rejects_non_gamepads() {
    let caps = DeviceCaps {
        name: "Keyboard".into(),
        abs_axes: vec![],
        keys: vec![28],
    };
    let found = classify_probed_device(
        &props(&[]),
        &caps,
        "/dev/input/event1".to_string(),
        "/sys/class/input/event1",
    );
    assert!(found.is_none());
}

fn controller(path: &str) -> DiscoveredController {
    DiscoveredController {
        identity: ControllerIdentity {
            vendor_id: "0079".into(),
            product_id: "0006".into(),
            serial: None,
            physical_path: None,
            name: path.into(),
        },
        device_path: path.into(),
        devpath: String::new(),
    }
}

#[test]
fn controllers_sort_by_device_path() {
    let sorted = sort_by_device_path(vec![
        controller("/dev/input/event7"),
        controller("/dev/input/event10"),
        controller("/dev/input/event2"),
    ]);
    let paths: Vec<&str> = sorted.iter().map(|c| c.device_path.as_str()).collect();
    assert_eq!(
        paths,
        vec!["/dev/input/event10", "/dev/input/event2", "/dev/input/event7"]
    );
}

#[test]
fn sorting_nothing_gives_nothing() {
    assert!(sort_by_device_path(Vec::new()).is_empty());
}

#[test]
fn identity_from_properties_defaults_missing_fields() {
    let identity = identity_from_properties(&props(&[]));
    assert_eq!(identity.vendor_id, "0000");
    assert_eq!(identity.product_id, "0000");
    assert_eq!(identity.name, "Unknown Controller");
    assert_eq!(identity.serial, None);
}

#[test]
fn equal_paths_keep_their_order() {
    let mut first = controller("/dev/input/event3");
    first.identity.name = "first".into();
    let mut second = controller("/dev/input/event3");
    second.identity.name = "second".into();
    let sorted = sort_by_device_path(vec![
        controller("/dev/input/event9"),
        first,
        controller("/dev/input/event1"),
        second,
    ]);
    let names: Vec<&str> = sorted.iter().map(|c| c.identity.name.as_str()).collect();
    assert_eq!(
        names,
        vec!["/dev/input/event1", "first", "second", "/dev/input/event9"]
    );
}
