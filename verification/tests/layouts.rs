use xxmapper::mapping::layouts::layout_mapping;
use xxmapper::mapping::model::{AxisMapping, ControlId, ControllerMapping, InputSource, Layout};

#[test]
fn ps3_layout_is_complete_with_expected_sources() {
    let mapping = layout_mapping(Layout::Ps3);
    assert!(mapping.is_complete());

    assert_eq!(
        mapping.left_stick_x,
        Some(AxisMapping::new(InputSource::axis(0), false))
    );
    assert_eq!(
        mapping.left_stick_y,
        Some(AxisMapping::new(InputSource::axis(1), false))
    );
    assert_eq!(
        mapping.right_stick_x,
        Some(AxisMapping::new(InputSource::axis(3), false))
    );
    assert_eq!(
        mapping.right_stick_y,
        Some(AxisMapping::new(InputSource::axis(4), false))
    );

    assert_eq!(mapping.l2, Some(InputSource::axis(2)));
    assert_eq!(mapping.r2, Some(InputSource::axis(5)));

    assert_eq!(mapping.dpad_left, Some(InputSource::hat(16, -1)));
    assert_eq!(mapping.dpad_right, Some(InputSource::hat(16, 1)));
    assert_eq!(mapping.dpad_up, Some(InputSource::hat(17, -1)));
    assert_eq!(mapping.dpad_down, Some(InputSource::hat(17, 1)));

    assert_eq!(mapping.a, Some(InputSource::key(304)));
    assert_eq!(mapping.b, Some(InputSource::key(305)));
    assert_eq!(mapping.x, Some(InputSource::key(308)));
    assert_eq!(mapping.y, Some(InputSource::key(307)));
    assert_eq!(mapping.l1, Some(InputSource::key(310)));
    assert_eq!(mapping.r1, Some(InputSource::key(311)));
    assert_eq!(mapping.back, Some(InputSource::key(314)));
    assert_eq!(mapping.start, Some(InputSource::key(315)));
    assert_eq!(mapping.guide, Some(InputSource::key(316)));
    assert_eq!(mapping.l3, Some(InputSource::key(317)));
    assert_eq!(mapping.r3, Some(InputSource::key(318)));
}

#[test]
fn ps4_layout_inverts_y_but_not_x() {
    let mapping = layout_mapping(Layout::Ps4);
    assert!(mapping.is_complete());

    assert_eq!(mapping.left_stick_x.as_ref().unwrap().invert, false);
    assert_eq!(mapping.left_stick_y.as_ref().unwrap().invert, true);
    assert_eq!(mapping.right_stick_x.as_ref().unwrap().invert, false);
    assert_eq!(mapping.right_stick_y.as_ref().unwrap().invert, true);
}

#[test]
fn ps4_layout_keeps_sony_face_buttons() {
    let mapping = layout_mapping(Layout::Ps4);
    assert_eq!(mapping.a, Some(InputSource::key(304))); // Cross
    assert_eq!(mapping.b, Some(InputSource::key(305))); // Circle
    assert_eq!(mapping.x, Some(InputSource::key(308))); // Square
    assert_eq!(mapping.y, Some(InputSource::key(307))); // Triangle
}

#[test]
fn custom_layout_is_empty() {
    let mapping = layout_mapping(Layout::Custom);
    assert!(!mapping.is_complete());
    assert!(mapping.a.is_none());
    assert!(mapping.guide.is_none());
}

#[test]
fn every_control_is_assigned_in_predefined_layouts() {
    for layout in [Layout::Ps3, Layout::Ps4] {
        let mapping = layout_mapping(layout);
        for control in ControlId::ALL {
            let present = if ControllerMapping::is_axis(control) {
                mapping.axis_mapping(control).is_some()
            } else {
                mapping.button_source(control).is_some()
            };
            assert!(present, "{layout:?} is missing {control:?}");
        }
    }
}
