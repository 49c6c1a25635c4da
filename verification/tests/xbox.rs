use xxmapper::mapping::mapper::{xbox_axis_code, VirtualEvent};
use xxmapper::mapping::model::{ControlId, ControllerMapping};
use xxmapper::xbox::{
    axis_from_code, button_from_code, device_write, registered_axes, registered_buttons,
    virtual_device_name, DeviceWrite, GamePadButton, RecordingBackend, XboxAxis, XboxBackend,
};

#[test]
fn button_codes_map_to_gamepad_variants() {
    assert_eq!(button_from_code(304), Some(GamePadButton::South));
    assert_eq!(button_from_code(308), Some(GamePadButton::West));
    assert_eq!(button_from_code(318), Some(GamePadButton::ThumbR));
    assert_eq!(button_from_code(999), None);
}

#[test]
fn recording_backend_captures_events() {
    let mut backend = RecordingBackend::new("test");
    backend
        .emit(&[VirtualEvent::key(304, 1), VirtualEvent::abs(0, -32767)])
        .unwrap();
    assert_eq!(backend.events.len(), 2);
    assert_eq!(backend.device_name(), "test");
}

#[test]
fn xbox_control_codes_cover_all_mapped_controls() {
    for control in ControlId::ALL {
        if ControllerMapping::is_axis(control) {
            assert!(xbox_axis_code(control).is_some());
        }
    }
}

#[test]
fn recording_backend_appends_batches_in_order() {
    let mut backend = RecordingBackend::new("pad");
    backend.emit(&[VirtualEvent::key(305, 1)]).unwrap();
    backend.emit(&[]).unwrap();
    backend
        .emit(&[VirtualEvent::abs(16, -1), VirtualEvent::key(305, 0)])
        .unwrap();
    assert_eq!(
        backend.events,
        vec![
            VirtualEvent::key(305, 1),
            VirtualEvent::abs(16, -1),
            VirtualEvent::key(305, 0)
        ]
    );
}

#[test]
fn axis_codes_map_to_pad_axes() {
    assert_eq!(axis_from_code(0), Some(XboxAxis::X));
    assert_eq!(axis_from_code(2), Some(XboxAxis::Z));
    assert_eq!(axis_from_code(5), Some(XboxAxis::RZ));
    assert_eq!(axis_from_code(16), Some(XboxAxis::Hat0X));
    assert_eq!(axis_from_code(17), Some(XboxAxis::Hat0Y));
    assert_eq!(axis_from_code(6), None);
}

#[test]
fn device_writes_follow_event_kind() {
    assert_eq!(
        device_write(&VirtualEvent::key(315, 1)),
        Some(DeviceWrite::Button(GamePadButton::Start, 1))
    );
    assert_eq!(
        device_write(&VirtualEvent::abs(4, -200)),
        Some(DeviceWrite::Axis(XboxAxis::RY, -200))
    );
    assert_eq!(device_write(&VirtualEvent::key(306, 1)), None);
    assert_eq!(device_write(&VirtualEvent::abs(8, 1)), None);
    let other = VirtualEvent {
        kind: 0,
        code: 304,
        value: 1,
    };
    assert_eq!(device_write(&other), None);
}

#[test]
fn pad_registers_the_xbox_control_set() {
    let buttons = registered_buttons();
    assert_eq!(buttons.len(), 13);
    assert_eq!(buttons[0], GamePadButton::South);
    assert_eq!(buttons[12], GamePadButton::ThumbR);
    let axes = registered_axes();
    assert_eq!(axes.len(), 8);
    assert_eq!(axes[0], (XboxAxis::X, -32767, 32767));
    assert_eq!(axes[2], (XboxAxis::Z, 0, 255));
    assert_eq!(axes[7], (XboxAxis::Hat0Y, -1, 1));
}

#[test]
fn device_name_is_trimmed_or_defaulted() {
    assert_eq!(virtual_device_name("  Living Room Pad \t"), "Living Room Pad");
    assert_eq!(virtual_device_name("   "), "XXMapper Virtual Xbox Controller");
    assert_eq!(virtual_device_name(""), "XXMapper Virtual Xbox Controller");
    assert_eq!(virtual_device_name("Pad"), "Pad");
}
