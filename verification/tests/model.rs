use xxmapper::mapping::model::{
    AxisMapping, ControlId, ControllerMapping, InputSource, Layout, StickDirection,
};

#[test]
fn control_ids_round_trip_through_str() {
    for id in ControlId::ALL {
        assert_eq!(ControlId::from_str(id.as_str()), Some(id));
    }
}

#[test]
fn axis_direction_metadata() {
    assert_eq!(
        ControlId::LeftStickX.stick_direction(),
        Some(StickDirection::Left)
    );
    assert_eq!(
        ControlId::RightStickY.stick_direction(),
        Some(StickDirection::Up)
    );
    assert_eq!(ControlId::A.stick_direction(), None);
}

#[test]
fn set_button_and_set_axis_update_model() {
    let mut mapping = ControllerMapping::default();
    mapping.set_button(ControlId::B, Some(InputSource::key(305)));
    assert_eq!(mapping.b, Some(InputSource::key(305)));
    mapping.set_button(ControlId::B, None);
    assert_eq!(mapping.b, None);
    mapping.set_axis(
        ControlId::LeftStickX,
        Some(AxisMapping::new(InputSource::axis(0), false)),
    );
    assert!(mapping.left_stick_x.is_some());
}

#[test]
fn summary_of_mapped_and_unmapped_controls() {
    let mut mapping = ControllerMapping::default();
    mapping.a = Some(InputSource::key(304));
    mapping.left_stick_y = Some(AxisMapping::new(InputSource::axis(1), true));
    assert_eq!(mapping.summary(ControlId::A), "BTN_SOUTH");
    assert_eq!(mapping.summary(ControlId::LeftStickY), "ABS_Y (inverted)");
    assert_eq!(mapping.summary(ControlId::Guide), "not mapped");
    assert_eq!(mapping.summary(ControlId::RightStickX), "not mapped");
}

#[test]
fn layout_labels_round_trip() {
    assert_eq!(Layout::from_label("PS4"), Some(Layout::Ps4));
    assert_eq!(Layout::from_label("PS3"), Some(Layout::Ps3));
    assert_eq!(Layout::from_label("ps3"), None);
    assert_eq!(Layout::Custom.label(), "Custom");
    assert_eq!(Layout::default(), Layout::Custom);
}

#[test]
fn unknown_control_name_is_rejected() {
    assert_eq!(ControlId::from_str("left_stick_z"), None);
    assert_eq!(ControlId::from_str(""), None);
    assert_eq!(ControlId::from_str("dpad_down"), Some(ControlId::DPadDown));
}

#[test]
fn source_names_follow_codes() {
    assert_eq!(InputSource::key(3).display(), "KEY_2");
    assert_eq!(InputSource::key(999).display(), "KEY_999");
    assert_eq!(InputSource::axis(40).display(), "ABS_40");
    assert_eq!(InputSource::hat(17, 1).code(), 17);
}
