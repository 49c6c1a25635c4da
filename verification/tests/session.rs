use std::collections::HashMap;

use xxmapper::controllers::evdev::{AxisSpec, InputEvent, EV_ABS, EV_KEY};
use xxmapper::mapping::detector::MappingDetector;
use xxmapper::mapping::model::{ControlId, ControllerMapping, InputSource};
use xxmapper::mapping::session::{
    apply_command, apply_event, emit_changed, MappingCommand, MappingUpdate,
};

fn unsigned_specs() -> HashMap<u16, AxisSpec> {
    let mut specs = HashMap::new();
    for c in (0..=5).chain([16, 17]) {
        specs.insert(c, AxisSpec::from_range(0, 255, 0));
    }
    specs
}

#[test]
fn skip_emits_changed_with_next_control() {
    let mut detector = MappingDetector::new(ControllerMapping::default());
    detector.set_axis_specs(unsigned_specs());

    let control = detector.current().unwrap();
    assert_eq!(control, ControlId::LeftStickX);
    detector.skip_current();
    let updates = emit_changed(&detector, control);

    let update = &updates[0];
    match update {
        MappingUpdate::Changed { mapping, next, .. } => {
            assert_eq!(*next, Some(ControlId::LeftStickY));
            assert!(mapping.left_stick_x.is_none());
        }
        _ => panic!("expected Changed"),
    }
    assert!(detector.current().is_some());
}

#[test]
fn finished_is_emitted_after_last_control() {
    let mut detector = MappingDetector::new(ControllerMapping::default());
    detector.set_axis_specs(unsigned_specs());

    detector.jump_to(ControlId::R3);
    let control = detector.current().unwrap();
    detector.skip_current();
    let updates = emit_changed(&detector, control);

    match &updates[0] {
        MappingUpdate::Changed { next, .. } => assert_eq!(*next, None),
        _ => panic!("expected Changed"),
    }
    assert_eq!(updates[1], MappingUpdate::Finished);
}

#[test]
fn cancel_command_stops_with_cancelled() {
    let mut detector = MappingDetector::new(ControllerMapping::default());
    let (updates, stop) = apply_command(&mut detector, MappingCommand::Cancel);
    assert!(stop);
    assert_eq!(updates, vec![MappingUpdate::Cancelled]);
    assert_eq!(detector.current(), Some(ControlId::LeftStickX));
}

#[test]
fn jump_command_reshows_target_control() {
    let mut detector = MappingDetector::new(ControllerMapping::default());
    let (updates, stop) = apply_command(&mut detector, MappingCommand::JumpTo(ControlId::Start));
    assert!(!stop);
    assert_eq!(updates.len(), 1);
    match &updates[0] {
        MappingUpdate::Changed {
            control,
            mapping,
            next,
        } => {
            assert_eq!(*control, ControlId::Start);
            assert_eq!(*next, Some(ControlId::Start));
            assert_eq!(*mapping, ControllerMapping::default());
        }
        _ => panic!("expected Changed"),
    }
    assert_eq!(detector.current(), Some(ControlId::Start));
}

#[test]
fn skip_command_after_last_control_does_nothing() {
    let mut detector = MappingDetector::new(ControllerMapping::default());
    detector.jump_to(ControlId::R3);
    let (first, stop) = apply_command(&mut detector, MappingCommand::Skip);
    assert!(!stop);
    assert_eq!(first.len(), 2);
    assert_eq!(first[1], MappingUpdate::Finished);
    let (second, stop) = apply_command(&mut detector, MappingCommand::Skip);
    assert!(!stop);
    assert!(second.is_empty());
}

#[test]
fn button_press_and_release_reach_the_ui() {
    let mut detector = MappingDetector::new(ControllerMapping::default());
    detector.set_axis_specs(unsigned_specs());
    detector.jump_to(ControlId::A);
    let press = InputEvent {
        type_: EV_KEY,
        code: 304,
        value: 1,
    };
    let release = InputEvent {
        type_: EV_KEY,
        code: 304,
        value: 0,
    };
    assert!(detector.can_feed(&press));
    let (held, stop) = apply_event(&mut detector, press);
    assert!(!stop);
    assert_eq!(
        held,
        vec![MappingUpdate::Held {
            control: ControlId::A
        }]
    );
    assert!(detector.can_feed(&release));
    let (changed, stop) = apply_event(&mut detector, release);
    assert!(!stop);
    assert_eq!(changed.len(), 1);
    match &changed[0] {
        MappingUpdate::Changed {
            control,
            mapping,
            next,
        } => {
            assert_eq!(*control, ControlId::A);
            assert_eq!(*next, Some(ControlId::B));
            assert_eq!(mapping.a, Some(InputSource::key(304)));
        }
        _ => panic!("expected Changed"),
    }
}

#[test]
fn events_of_other_types_produce_no_updates() {
    let mut detector = MappingDetector::new(ControllerMapping::default());
    detector.set_axis_specs(unsigned_specs());
    let event = InputEvent {
        type_: 2,
        code: 0,
        value: 5,
    };
    let (updates, stop) = apply_event(&mut detector, event);
    assert!(!stop);
    assert!(updates.is_empty());
    let _ = EV_ABS;
}
