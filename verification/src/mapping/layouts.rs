//! Predefined PS3 / PS4 controller layouts.
//!
//! Applying a layout replaces the whole mapping with the well-known evdev
//! codes used by the official Sony controllers on Linux, so a DualShock 3 or
//! DualShock 4 can be used with an Xbox-shaped mapping without manual capture.
//!
//! Axis direction handling:
//! - `ABS_X`-class axes report left as negative on both official pads, so no
//!   X inversion is needed.
//! - The DualShock 3 reports `ABS_Y`/`ABS_RY` with up negative (like the Xbox
//!   convention), so no Y inversion is needed.
//! - The DualShock 4 reports `ABS_Y`/`ABS_RY` with up **positive** (the well
//!   known DS4 quirk), so both Y axes are marked `invert` to negate the raw
//!   value at runtime.

use vstd::prelude::*;

use crate::mapping::mapper::{spec_xbox_axis_code, spec_xbox_key_code, spec_xbox_trigger_code};
use crate::mapping::model::{
    axis_source, hat_source, is_stick, key_source, AxisMapping, AxisView, ControlId,
    ControllerMapping, InputSource, Layout, MappingView,
};

verus! {

/// The PS3 mapping.
pub open spec fn ps3_view() -> MappingView {
    MappingView {
        left_stick_x: Some(AxisView { source: axis_source(0), invert: false }),
        left_stick_y: Some(AxisView { source: axis_source(1), invert: false }),
        right_stick_x: Some(AxisView { source: axis_source(3), invert: false }),
        right_stick_y: Some(AxisView { source: axis_source(4), invert: false }),
        l2: Some(axis_source(2)),
        r2: Some(axis_source(5)),
        dpad_left: Some(hat_source(16, -1i32)),
        dpad_right: Some(hat_source(16, 1)),
        dpad_up: Some(hat_source(17, -1i32)),
        dpad_down: Some(hat_source(17, 1)),
        a: Some(key_source(304)),
        b: Some(key_source(305)),
        x: Some(key_source(308)),
        y: Some(key_source(307)),
        l1: Some(key_source(310)),
        r1: Some(key_source(311)),
        back: Some(key_source(314)),
        start: Some(key_source(315)),
        guide: Some(key_source(316)),
        l3: Some(key_source(317)),
        r3: Some(key_source(318)),
    }
}

/// The PS4 mapping.
pub open spec fn ps4_view() -> MappingView {
    MappingView {
        left_stick_x: Some(AxisView { source: axis_source(0), invert: false }),
        left_stick_y: Some(AxisView { source: axis_source(1), invert: true }),
        right_stick_x: Some(AxisView { source: axis_source(3), invert: false }),
        right_stick_y: Some(AxisView { source: axis_source(4), invert: true }),
        l2: Some(axis_source(2)),
        r2: Some(axis_source(5)),
        dpad_left: Some(hat_source(16, -1i32)),
        dpad_right: Some(hat_source(16, 1)),
        dpad_up: Some(hat_source(17, -1i32)),
        dpad_down: Some(hat_source(17, 1)),
        a: Some(key_source(304)),
        b: Some(key_source(305)),
        x: Some(key_source(308)),
        y: Some(key_source(307)),
        l1: Some(key_source(310)),
        r1: Some(key_source(311)),
        back: Some(key_source(314)),
        start: Some(key_source(315)),
        guide: Some(key_source(316)),
        l3: Some(key_source(317)),
        r3: Some(key_source(318)),
    }
}

/// The mapping a layout stands for (`Custom` is empty).
pub open spec fn layout_view(layout: Layout) -> MappingView {
    match layout {
        Layout::Custom => MappingView::empty(),
        Layout::Ps3 => ps3_view(),
        Layout::Ps4 => ps4_view(),
    }
}

/// The complete predefined mapping for a layout (`Custom` is empty).
pub fn layout_mapping(layout: Layout) -> (r: ControllerMapping)
    ensures
        r@ == layout_view(layout),
{
    match layout {
        Layout::Custom => ControllerMapping::default(),
        Layout::Ps3 => ps3_mapping(),
        Layout::Ps4 => ps4_mapping(),
    }
}

/// DualShock 3 / Sixaxis mapping.
pub fn ps3_mapping() -> (r: ControllerMapping)
    ensures
        r@ == ps3_view(),
{
    ControllerMapping {
        left_stick_x: Some(AxisMapping::new(InputSource::axis(0), false)),
        left_stick_y: Some(AxisMapping::new(InputSource::axis(1), false)),
        right_stick_x: Some(AxisMapping::new(InputSource::axis(3), false)),
        right_stick_y: Some(AxisMapping::new(InputSource::axis(4), false)),

        l2: Some(InputSource::axis(2)),
        r2: Some(InputSource::axis(5)),

        dpad_left: Some(InputSource::hat(16, -1)),
        dpad_right: Some(InputSource::hat(16, 1)),
        dpad_up: Some(InputSource::hat(17, -1)),
        dpad_down: Some(InputSource::hat(17, 1)),

        a: Some(InputSource::key(304)),
        b: Some(InputSource::key(305)),
        x: Some(InputSource::key(308)),
        y: Some(InputSource::key(307)),

        l1: Some(InputSource::key(310)),
        r1: Some(InputSource::key(311)),

        back: Some(InputSource::key(314)),
        start: Some(InputSource::key(315)),
        guide: Some(InputSource::key(316)),

        l3: Some(InputSource::key(317)),
        r3: Some(InputSource::key(318)),
    }
}

/// DualShock 4 mapping (Y axes inverted to correct the DS4 quirk).
pub fn ps4_mapping() -> (r: ControllerMapping)
    ensures
        r@ == ps4_view(),
{
    ControllerMapping {
        left_stick_x: Some(AxisMapping::new(InputSource::axis(0), false)),
        left_stick_y: Some(AxisMapping::new(InputSource::axis(1), true)),
        right_stick_x: Some(AxisMapping::new(InputSource::axis(3), false)),
        right_stick_y: Some(AxisMapping::new(InputSource::axis(4), true)),

        l2: Some(InputSource::axis(2)),
        r2: Some(InputSource::axis(5)),

        dpad_left: Some(InputSource::hat(16, -1)),
        dpad_right: Some(InputSource::hat(16, 1)),
        dpad_up: Some(InputSource::hat(17, -1)),
        dpad_down: Some(InputSource::hat(17, 1)),

        a: Some(InputSource::key(304)),
        b: Some(InputSource::key(305)),
        x: Some(InputSource::key(308)),
        y: Some(InputSource::key(307)),

        l1: Some(InputSource::key(310)),
        r1: Some(InputSource::key(311)),

        back: Some(InputSource::key(314)),
        start: Some(InputSource::key(315)),
        guide: Some(InputSource::key(316)),

        l3: Some(InputSource::key(317)),
        r3: Some(InputSource::key(318)),
    }
}

/// Both predefined layouts assign every one of the 21 controls; the custom
/// layout assigns none.
pub proof fn law_predefined_layouts_are_complete(c: ControlId)
    ensures
        ps3_view().is_complete(),
        ps4_view().is_complete(),
        !layout_view(Layout::Custom).is_mapped(c),
{
    assert forall|d: ControlId| #[trigger] ps3_view().is_mapped(d) by {}
    assert forall|d: ControlId| #[trigger] ps4_view().is_mapped(d) by {}
}

/// The PS4 layout is the PS3 layout with both Y axes inverted: X axes are
/// never inverted, and every non-stick control has the same source.
pub proof fn law_ps4_differs_from_ps3_only_in_y_inversion(c: ControlId)
    ensures
        !is_stick(c) ==> ps4_view().button_of(c) == ps3_view().button_of(c),
        c == ControlId::LeftStickX || c == ControlId::RightStickX ==> !ps4_view().axis_of(c)->0.invert
            && !ps3_view().axis_of(c)->0.invert,
        c == ControlId::LeftStickY || c == ControlId::RightStickY ==> ps4_view().axis_of(c)->0.invert
            && !ps3_view().axis_of(c)->0.invert && ps4_view().axis_of(c)->0.source == ps3_view().axis_of(
            c,
        )->0.source,
{
}


/// The official Sony pads report every stick, trigger and face, shoulder,
/// menu and stick-click button on the same Linux code as the Xbox 360 pad
/// uses for that control, so in both predefined layouts each stick reads the
/// physical axis whose code is its Xbox axis code, each trigger reads the
/// physical axis whose code is its Xbox trigger code, and every other button
/// reads the physical key whose code is its Xbox button code: the layouts
/// forward each control on its own code.
pub proof fn law_predefined_layouts_forward_own_codes(layout: Layout, c: ControlId)
    requires
        layout != Layout::Custom,
    ensures
        spec_xbox_axis_code(c) is Some ==> layout_view(layout).axis_of(c)->0.source
            == axis_source(spec_xbox_axis_code(c)->0),
        spec_xbox_trigger_code(c) is Some ==> layout_view(layout).button_of(c) == Some(
            axis_source(spec_xbox_trigger_code(c)->0),
        ),
        spec_xbox_key_code(c) is Some && spec_xbox_trigger_code(c) is None ==> layout_view(
            layout,
        ).button_of(c) == Some(key_source(spec_xbox_key_code(c)->0)),
{
}

} // verus!
