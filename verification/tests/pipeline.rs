use std::collections::HashMap;

use xxmapper::controllers::evdev::{AxisSpec, InputEvent, EV_ABS, EV_KEY};
use xxmapper::mapping::detector::{DetectorUpdate, MappingDetector};
use xxmapper::mapping::mapper::{translate_event, translate_is_safe, VirtualEvent};
use xxmapper::mapping::model::{ControlId, ControllerMapping};
use xxmapper::xbox::{device_write, RecordingBackend, XboxBackend};

fn abs(code: u16, value: i32) -> InputEvent {
    InputEvent {
        type_: EV_ABS,
        code,
        value,
    }
}

fn key(code: u16, value: i32) -> InputEvent {
    InputEvent {
        type_: EV_KEY,
        code,
        value,
    }
}

fn signed_specs() -> HashMap<u16, AxisSpec> {
    let mut specs = HashMap::new();
    for code in [0u16, 1, 3, 4] {
        specs.insert(code, AxisSpec::from_range(-32768, 32767, 0));
    }
    specs
}

fn capture_left_x(peak: i32) -> ControllerMapping {
    let mut detector = MappingDetector::new(ControllerMapping::default());
    detector.set_axis_specs(signed_specs());
    let updates = detector.feed(&[abs(0, peak), abs(0, 0)]);
    assert!(updates.contains(&DetectorUpdate::Captured {
        control: ControlId::LeftStickX
    }));
    detector.mapping_owned()
}

#[test]
fn captured_direction_reads_as_xbox_left() {
    for peak in [30000, -30000] {
        let mapping = capture_left_x(peak);
        let specs = signed_specs();
        let same_side = abs(0, peak / 2);
        assert!(translate_is_safe(&mapping, &specs, &same_side));
        let out = translate_event(&mapping, &specs, &same_side);
        assert_eq!(out.len(), 1);
        assert!(out[0].value < 0, "peak {peak} gave {:?}", out);
        let other_side = abs(0, -peak / 2);
        let out = translate_event(&mapping, &specs, &other_side);
        assert!(out[0].value > 0);
    }
}

#[test]
fn translated_events_are_all_written_to_the_pad() {
    let mapping = xxmapper::mapping::layouts::ps3_mapping();
    let specs = signed_specs();
    let mut backend = RecordingBackend::new("pad");
    for event in [key(304, 1), key(304, 0), abs(0, 20000), abs(16, -1), abs(2, 100)] {
        let out = translate_event(&mapping, &specs, &event);
        for e in &out {
            assert!(device_write(e).is_some());
        }
        backend.emit(&out).unwrap();
    }
    assert!(backend.events.contains(&VirtualEvent::key(304, 1)));
    assert!(backend.events.contains(&VirtualEvent::abs(16, -1)));
}
