use std::collections::HashMap;

use xxmapper::controllers::identity::{identity_from_properties, IdentityStrength};

fn props(
    vid: &str,
    pid: &str,
    serial: Option<&str>,
    path: Option<&str>,
    name: &str,
) -> HashMap<String, String> {
    let mut map = HashMap::new();
    map.insert("ID_VENDOR_ID".to_string(), vid.to_string());
    map.insert("ID_MODEL_ID".to_string(), pid.to_string());
    if let Some(s) = serial {
        map.insert("ID_SERIAL_SHORT".to_string(), s.to_string());
    }
    if let Some(p) = path {
        map.insert("ID_PATH".to_string(), p.to_string());
    }
    map.insert("NAME".to_string(), name.to_string());
    map
}

#[test]
fn serial_number_identity_is_used_when_available() {
    let a = identity_from_properties(&props(
        "0079",
        "0006",
        Some("ABC123"),
        Some("pci-0000:00:14.0-usb-0:3"),
        "Generic USB Joystick",
    ));
    let b = identity_from_properties(&props(
        "0079",
        "0006",
        Some("ABC123"),
        Some("pci-0000:00:14.0-usb-0:4"),
        "Generic USB Joystick",
    ));
    assert_eq!(a.strength(), IdentityStrength::Serial);
    assert_eq!(a.stable_key(), b.stable_key());
    assert!(a.stable_key().unwrap().contains("ABC123"));
    assert!(!a.stable_key().unwrap().contains("event"));
}

#[test]
fn physical_path_identity_when_no_serial() {
    let a = identity_from_properties(&props(
        "0079",
        "0006",
        None,
        Some("pci-0000:00:14.0-usb-0:3"),
        "Generic USB Joystick",
    ));
    assert_eq!(a.serial, None);
    assert_eq!(a.strength(), IdentityStrength::PhysicalPath);
    assert!(a.stable_key().unwrap().contains("pci-0000:00:14.0-usb-0:3"));
    assert!(!a.stable_key().unwrap().contains("event"));
}

#[test]
fn identical_controllers_on_different_ports_have_different_identity() {
    let a = identity_from_properties(&props(
        "0079",
        "0006",
        None,
        Some("pci-0000:00:14.0-usb-0:3"),
        "Generic USB Joystick",
    ));
    let b = identity_from_properties(&props(
        "0079",
        "0006",
        None,
        Some("pci-0000:00:14.0-usb-0:4"),
        "Generic USB Joystick",
    ));
    assert_ne!(a.id(), b.id());
}

#[test]
fn same_path_same_vidpid_is_deterministic() {
    let a = identity_from_properties(&props(
        "0079",
        "0006",
        None,
        Some("pci-0000:00:14.0-usb-0:3"),
        "Generic USB Joystick",
    ));
    let b = identity_from_properties(&props(
        "0079",
        "0006",
        None,
        Some("pci-0000:00:14.0-usb-0:3"),
        "Generic USB Joystick",
    ));
    assert_eq!(a.id(), b.id());
    assert_eq!(a.filename(), b.filename());
}

#[test]
fn name_never_affects_identity() {
    let a = identity_from_properties(&props(
        "0079",
        "0006",
        None,
        Some("pci-0000:00:14.0-usb-0:3"),
        "Name A",
    ));
    let b = identity_from_properties(&props(
        "0079",
        "0006",
        None,
        Some("pci-0000:00:14.0-usb-0:3"),
        "Name B",
    ));
    assert_eq!(a.id(), b.id());
}

#[test]
fn eventn_never_used_as_identity() {
    let a = identity_from_properties(&props(
        "0079",
        "0006",
        None,
        Some("pci-0000:00:14.0-usb-0:3"),
        "Generic USB Joystick",
    ));
    assert!(!a.id().contains("/dev/input"));
    assert!(!a.id().contains("event"));
}

#[test]
fn no_serial_no_path_is_ephemeral() {
    let identity = identity_from_properties(&props("0079", "0006", None, None, "Mystery"));
    assert_eq!(identity.strength(), IdentityStrength::Ephemeral);
    assert!(!identity.is_persistent());
    assert_eq!(identity.stable_key(), None);
    assert_eq!(identity.id(), "0079-0006");
}

#[test]
fn ephemeral_identity_must_not_automatic_match() {
    let saved = identity_from_properties(&props(
        "0079",
        "0006",
        None,
        Some("pci-0000:00:14.0-usb-0:3"),
        "A",
    ));
    let ephemeral = identity_from_properties(&props("0079", "0006", None, None, "B"));
    assert!(
        !ephemeral.is_persistent() || saved.stable_key() != ephemeral.stable_key(),
        "an ephemeral controller must never claim a persistent identity"
    );
}

#[test]
fn devpath_is_ignored_by_identity() {
    let mut map = props("1234", "5678", None, None, "Thing");
    map.insert(
        "DEVPATH".to_string(),
        "/devices/pci0000:00/0000:00:14.0/usb3/3-2/input/input5/event12".to_string(),
    );
    let identity = identity_from_properties(&map);
    assert_eq!(identity.strength(), IdentityStrength::Ephemeral);
    assert_eq!(identity.stable_key(), None);
    assert!(!identity.id().contains("event12"));
}

#[test]
fn filename_is_sanitized_but_semantic_key_is_not() {
    let identity = identity_from_properties(&props(
        "0079",
        "0006",
        None,
        Some("pci-0000:00:14.0-usb-0:3"),
        "Pad",
    ));
    let semantic = identity.stable_key().unwrap();
    assert!(semantic.contains(':'));
    let filename = identity.filename();
    assert!(!filename.contains(':'));
    assert!(filename.ends_with(".json"));
}

#[test]
fn exact_keys_ids_and_filenames() {
    let identity = identity_from_properties(&props(
        "0079",
        "0006",
        None,
        Some("pci-0000:00:14.0-usb-0:3"),
        "Pad",
    ));
    assert_eq!(
        identity.stable_key().unwrap(),
        "0079-0006-pci-0000:00:14.0-usb-0:3"
    );
    assert_eq!(identity.id(), "0079-0006-pci-0000_00_14.0-usb-0_3");
    assert_eq!(identity.filename(), "0079-0006-pci-0000_00_14.0-usb-0_3.json");
    assert!(identity.is_persistent());
}

#[test]
fn blank_serial_falls_back_to_path() {
    let identity = identity_from_properties(&props(
        "0079",
        "0006",
        Some("   "),
        Some("usb-1"),
        "Pad",
    ));
    assert_eq!(identity.serial, None);
    assert_eq!(identity.strength(), IdentityStrength::PhysicalPath);
    assert_eq!(identity.stable_key().unwrap(), "0079-0006-usb-1");
}

#[test]
fn serial_key_uses_serial_exactly() {
    let identity = identity_from_properties(&props("045e", "028e", Some("S/N 7"), None, "Pad"));
    assert_eq!(identity.stable_key().unwrap(), "045e-028e-S/N 7");
    assert_eq!(identity.id(), "045e-028e-S_N_7");
}
