use std::collections::BTreeMap;

use xxmapper::config::model::{AppConfig, ControllerConfig};
use xxmapper::controllers::discovery::DiscoveredController;
use xxmapper::controllers::identity::ControllerIdentity;
use xxmapper::mapping::model::{AxisMapping, ControlId, ControllerMapping, InputSource, Layout};
use xxmapper::ui::{
    build_controller_info, build_controller_infos, build_mapping_controls, jump_target,
    show_control, skip_target,
};

fn pad(serial: Option<&str>, path: Option<&str>) -> DiscoveredController {
    DiscoveredController {
        identity: ControllerIdentity {
            vendor_id: "0079".into(),
            product_id: "0006".into(),
            serial: serial.map(String::from),
            physical_path: path.map(String::from),
            name: "Generic USB Joystick".into(),
        },
        device_path: "/dev/input/event7".into(),
        devpath: "/devices/x".into(),
    }
}

fn config_with(id: &str, enabled: bool, identity: ControllerIdentity) -> AppConfig {
    let mut controllers = BTreeMap::new();
    controllers.insert(
        id.to_string(),
        ControllerConfig {
            identity,
            enabled,
            virtual_name: String::new(),
            layout: Layout::Custom,
            mapping: ControllerMapping::default(),
        },
    );
    AppConfig {
        version: 1,
        controllers,
    }
}

#[test]
fn unconfigured_controller_info() {
    let d = pad(None, Some("pci-0000:00:14.0-usb-0:3"));
    let info = build_controller_info(&d, &AppConfig::default());
    assert_eq!(info.id, "0079-0006-pci-0000_00_14.0-usb-0_3");
    assert_eq!(info.name, "Generic USB Joystick");
    assert_eq!(info.vid_pid, "0079:0006");
    assert_eq!(info.path, "pci-0000:00:14.0-usb-0:3");
    assert_eq!(info.status, "Connected \u{2022} not configured");
    assert_eq!(
        info.details,
        "Name: Generic USB Joystick\nVID:PID: 0079:0006\nUSB path: pci-0000:00:14.0-usb-0:3\nIdentity: USB port path\nDevice node: /dev/input/event7\n"
    );
}

#[test]
fn configured_controller_status_follows_enabled_flag() {
    let d = pad(Some("SN1"), None);
    let id = d.identity.id();
    let active = build_controller_info(&d, &config_with(&id, true, d.identity.clone()));
    assert_eq!(active.status, "Connected \u{2022} mapping active");
    let idle = build_controller_info(&d, &config_with(&id, false, d.identity.clone()));
    assert_eq!(idle.status, "Connected");
    assert_eq!(idle.path, "/dev/input/event7");
    assert!(idle.details.contains("Serial: SN1\n"));
    assert!(idle.details.contains("Identity: USB serial number\n"));
}

#[test]
fn ephemeral_controller_gets_warning() {
    let d = pad(None, None);
    let info = build_controller_info(&d, &AppConfig::default());
    assert_eq!(info.id, "0079-0006");
    assert!(info
        .details
        .contains("Identity: Transient (no stable identity)\nThis controller cannot be reliably matched"));
    assert!(info.details.ends_with("Device node: /dev/input/event7\n"));
}

#[test]
fn controller_infos_follow_discovery_order() {
    let list = vec![pad(None, Some("a")), pad(None, Some("b"))];
    let infos = build_controller_infos(&list, &AppConfig::default());
    assert_eq!(infos.len(), 2);
    assert_eq!(infos[0].path, "a");
    assert_eq!(infos[1].path, "b");
}

#[test]
fn mapping_controls_list_all_controls_in_order() {
    let mut mapping = ControllerMapping::default();
    mapping.set_button(ControlId::A, Some(InputSource::key(304)));
    mapping.set_axis(
        ControlId::LeftStickY,
        Some(AxisMapping::new(InputSource::axis(1), true)),
    );
    let rows = build_mapping_controls(&mapping);
    assert_eq!(rows.len(), 21);
    assert_eq!(rows[0].id, ControlId::LeftStickX.as_str());
    assert_eq!(rows[0].value, "not mapped");
    assert_eq!(rows[1].value, "ABS_Y (inverted)");
    let a = rows
        .iter()
        .find(|r| r.id == ControlId::A.as_str())
        .unwrap();
    assert_eq!(a.value, "BTN_SOUTH");
    assert_eq!(a.label, ControlId::A.label());
}

#[test]
fn mapping_view_positions() {
    let first = show_control(0);
    assert_eq!(first.control, ControlId::LeftStickX);
    assert_eq!(first.progress, 1);
    assert_eq!(first.progress_total, 21);
    let past = show_control(25);
    assert_eq!(past.control, ControlId::R3);
    assert_eq!(past.progress, 26);
    assert_eq!(skip_target(0), Some(1));
    assert_eq!(skip_target(20), None);
    assert_eq!(jump_target(ControlId::Start.as_str()), Some(ControlId::Start.position()));
    assert_eq!(jump_target("no_such_control"), None);
}

#[test]
fn controller_without_stable_identity_never_matches_saved_settings() {
    let d = pad(None, None);
    let id = d.identity.id();
    assert_eq!(id, "0079-0006");
    let config = config_with(&id, true, d.identity.clone());
    let info = build_controller_info(&d, &config);
    assert_eq!(info.status, "Connected \u{2022} not configured");
}

#[test]
fn progress_wraps_like_an_i32_conversion() {
    let far = show_control(0x7fff_ffff);
    assert_eq!(far.progress, i32::MIN);
    assert_eq!(far.control, ControlId::R3);
}
