//! Hardware-independent Linux input events, absolute-axis metadata used for
//! dead-zone decisions, and the human-readable names of evdev codes.

use std::collections::HashMap;

use vstd::prelude::*;

use crate::text::{decimal, prefixed_decimal};

verus! {

broadcast use vstd::std_specs::hash::group_hash_axioms;

/// The opened evdev device, carried by `EvdevSource`.
#[verifier::external_type_specification]
#[verifier::external_body]
pub struct ExDevice(evdev::Device);

pub const EV_SYN: u16 = 0;

pub const EV_KEY: u16 = 1;

pub const EV_ABS: u16 = 3;

/// Stick / trigger axes that matter to game controllers.
pub const GAMEPAD_AXES: [u16; 8] = [0, 1, 2, 3, 4, 5, 16, 17];

/// A single hardware-independent Linux input event.
#[derive(Debug, Clone, Copy, PartialEq, Eq, Structural)]
pub struct InputEvent {
    pub type_: u16,
    pub code: u16,
    pub value: i32,
}

/// Properties of one absolute axis used for dead-zone and scaling decisions.
#[derive(Debug, Clone, Copy, PartialEq, Eq, Structural)]
pub struct AxisSpec {
    pub min: i32,
    pub max: i32,
    pub center: i32,
    pub deadzone: i32,
}

/// Integer division rounding toward zero, as Rust's `/` on signed integers.
pub open spec fn trunc_div(a: int, b: int) -> int
    recommends
        b > 0,
{
    if a >= 0 {
        a / b
    } else {
        -((-a) / b)
    }
}

/// Absolute value on mathematical integers.
pub open spec fn abs(a: int) -> int {
    if a < 0 {
        -a
    } else {
        a
    }
}

/// Whether `v` fits an `i32`.
pub open spec fn fits_i32(v: int) -> bool {
    i32::MIN <= v <= i32::MAX
}

/// Whether `(v).abs()` can be taken on an `i32` without overflow.
pub open spec fn abs_safe_i32(v: int) -> bool {
    i32::MIN < v <= i32::MAX
}

/// The center an `AxisSpec` built from this range has.
pub open spec fn range_center(min: int, max: int) -> int {
    if min < 0 {
        0
    } else {
        min + trunc_div(max - min, 2)
    }
}

/// The dead zone an `AxisSpec` built from this range and hardware `flat` has.
pub open spec fn range_deadzone(min: int, max: int, flat: int) -> int {
    if flat > 0 {
        flat
    } else if trunc_div(max - min, 20) >= 1 {
        trunc_div(max - min, 20)
    } else {
        1
    }
}

impl AxisSpec {
    /// Whether `value` lies inside the dead zone around the center.
    pub open spec fn spec_is_center(self, value: int) -> bool {
        abs(value - self.center) <= self.deadzone
    }

    /// `is_center(value)` computes `(value - center).abs()` in `i32`.
    pub open spec fn center_safe(self, value: int) -> bool {
        abs_safe_i32(value - self.center)
    }

    /// The trigger rest test computes `(value - min).abs()` in `i32`.
    pub open spec fn min_safe(self, value: int) -> bool {
        abs_safe_i32(value - self.min)
    }

    /// Build an `AxisSpec` from raw evdev `input_absinfo`.
    ///
    /// For centered devices (`min < 0`) the center is `0`; for devices with a
    /// non-negative range the center is the middle of the range. The dead-zone
    /// comes from the hardware `flat` value and falls back to 5% of the range.
    pub fn from_range(min: i32, max: i32, flat: i32) -> (r: Self)
        requires
            fits_i32(max - min),
        ensures
            r.min == min,
            r.max == max,
            r.center == range_center(min as int, max as int),
            r.deadzone == range_deadzone(min as int, max as int, flat as int),
    {
        let center = if min < 0 {
            0
        } else {
            min + (max - min) / 2
        };
        let deadzone = if flat > 0 {
            flat
        } else {
            let fallback = (max - min) / 20;
            if fallback >= 1 {
                fallback
            } else {
                1
            }
        };
        AxisSpec { min, max, center, deadzone }
    }

    pub fn is_center(&self, value: i32) -> (r: bool)
        requires
            self.center_safe(value as int),
        ensures
            r == self.spec_is_center(value as int),
    {
        let d = value - self.center;
        let a = if d < 0 {
            -d
        } else {
            d
        };
        a <= self.deadzone
    }

    pub fn is_moved(&self, value: i32) -> (r: bool)
        requires
            self.center_safe(value as int),
        ensures
            r == !self.spec_is_center(value as int),
    {
        !self.is_center(value)
    }
}

/// The name of an `EV_KEY` code.
pub open spec fn key_name(code: u16) -> Seq<char> {
    if code == 1 {
        "KEY_ESC"@
    } else if 2 <= code <= 11 {
        "KEY_"@ + decimal((code - 1) as nat)
    } else if code == 288 {
        "BTN_TRIGGER"@
    } else if code == 289 {
        "BTN_THUMB"@
    } else if code == 290 {
        "BTN_THUMB2"@
    } else if code == 291 {
        "BTN_TOP"@
    } else if code == 292 {
        "BTN_TOP2"@
    } else if code == 293 {
        "BTN_PINKIE"@
    } else if code == 294 {
        "BTN_BASE"@
    } else if code == 295 {
        "BTN_BASE2"@
    } else if code == 296 {
        "BTN_BASE3"@
    } else if code == 297 {
        "BTN_BASE4"@
    } else if code == 298 {
        "BTN_BASE5"@
    } else if code == 299 {
        "BTN_BASE6"@
    } else if code == 304 {
        "BTN_SOUTH"@
    } else if code == 305 {
        "BTN_EAST"@
    } else if code == 306 {
        "BTN_C"@
    } else if code == 307 {
        "BTN_NORTH"@
    } else if code == 308 {
        "BTN_WEST"@
    } else if code == 309 {
        "BTN_Z"@
    } else if code == 310 {
        "BTN_TL"@
    } else if code == 311 {
        "BTN_TR"@
    } else if code == 312 {
        "BTN_TL2"@
    } else if code == 313 {
        "BTN_TR2"@
    } else if code == 314 {
        "BTN_SELECT"@
    } else if code == 315 {
        "BTN_START"@
    } else if code == 316 {
        "BTN_MODE"@
    } else if code == 317 {
        "BTN_THUMBL"@
    } else if code == 318 {
        "BTN_THUMBR"@
    } else if code == 544 {
        "BTN_DPAD_UP"@
    } else if code == 545 {
        "BTN_DPAD_DOWN"@
    } else if code == 546 {
        "BTN_DPAD_LEFT"@
    } else if code == 547 {
        "BTN_DPAD_RIGHT"@
    } else {
        "KEY_"@ + decimal(code as nat)
    }
}

/// Look up a human-readable name for an `EV_KEY` code.
pub fn key_code_name(code: u16) -> (r: String)
    ensures
        r@ == key_name(code),
{
    match code {
        1 => "KEY_ESC".to_owned(),
        2..=11 => prefixed_decimal("KEY_", (code - 1) as u64),
        288 => "BTN_TRIGGER".to_owned(),
        289 => "BTN_THUMB".to_owned(),
        290 => "BTN_THUMB2".to_owned(),
        291 => "BTN_TOP".to_owned(),
        292 => "BTN_TOP2".to_owned(),
        293 => "BTN_PINKIE".to_owned(),
        294 => "BTN_BASE".to_owned(),
        295 => "BTN_BASE2".to_owned(),
        296 => "BTN_BASE3".to_owned(),
        297 => "BTN_BASE4".to_owned(),
        298 => "BTN_BASE5".to_owned(),
        299 => "BTN_BASE6".to_owned(),
        304 => "BTN_SOUTH".to_owned(),
        305 => "BTN_EAST".to_owned(),
        306 => "BTN_C".to_owned(),
        307 => "BTN_NORTH".to_owned(),
        308 => "BTN_WEST".to_owned(),
        309 => "BTN_Z".to_owned(),
        310 => "BTN_TL".to_owned(),
        311 => "BTN_TR".to_owned(),
        312 => "BTN_TL2".to_owned(),
        313 => "BTN_TR2".to_owned(),
        314 => "BTN_SELECT".to_owned(),
        315 => "BTN_START".to_owned(),
        316 => "BTN_MODE".to_owned(),
        317 => "BTN_THUMBL".to_owned(),
        318 => "BTN_THUMBR".to_owned(),
        544 => "BTN_DPAD_UP".to_owned(),
        545 => "BTN_DPAD_DOWN".to_owned(),
        546 => "BTN_DPAD_LEFT".to_owned(),
        547 => "BTN_DPAD_RIGHT".to_owned(),
        _ => prefixed_decimal("KEY_", code as u64),
    }
}

/// The name of an `EV_ABS` code.
pub open spec fn abs_name(code: u16) -> Seq<char> {
    if code == 0 {
        "ABS_X"@
    } else if code == 1 {
        "ABS_Y"@
    } else if code == 2 {
        "ABS_Z"@
    } else if code == 3 {
        "ABS_RX"@
    } else if code == 4 {
        "ABS_RY"@
    } else if code == 5 {
        "ABS_RZ"@
    } else if code == 6 {
        "ABS_THROTTLE"@
    } else if code == 16 {
        "ABS_HAT0X"@
    } else if code == 17 {
        "ABS_HAT0Y"@
    } else if code == 18 {
        "ABS_HAT1X"@
    } else if code == 19 {
        "ABS_HAT1Y"@
    } else if code == 20 {
        "ABS_HAT2X"@
    } else if code == 21 {
        "ABS_HAT2Y"@
    } else if code == 22 {
        "ABS_HAT3X"@
    } else if code == 23 {
        "ABS_HAT3Y"@
    } else if code == 24 {
        "ABS_HAT4X"@
    } else if code == 25 {
        "ABS_HAT4Y"@
    } else {
        "ABS_"@ + decimal(code as nat)
    }
}

/// Look up a human-readable name for an `EV_ABS` code.
pub fn abs_code_name(code: u16) -> (r: String)
    ensures
        r@ == abs_name(code),
{
    match code {
        0 => "ABS_X".to_owned(),
        1 => "ABS_Y".to_owned(),
        2 => "ABS_Z".to_owned(),
        3 => "ABS_RX".to_owned(),
        4 => "ABS_RY".to_owned(),
        5 => "ABS_RZ".to_owned(),
        6 => "ABS_THROTTLE".to_owned(),
        16 => "ABS_HAT0X".to_owned(),
        17 => "ABS_HAT0Y".to_owned(),
        18 => "ABS_HAT1X".to_owned(),
        19 => "ABS_HAT1Y".to_owned(),
        20 => "ABS_HAT2X".to_owned(),
        21 => "ABS_HAT2Y".to_owned(),
        22 => "ABS_HAT3X".to_owned(),
        23 => "ABS_HAT3Y".to_owned(),
        24 => "ABS_HAT4X".to_owned(),
        25 => "ABS_HAT4Y".to_owned(),
        _ => prefixed_decimal("ABS_", code as u64),
    }
}


/// Raw `input_absinfo` of one absolute axis, as the device reports it.
#[derive(Debug, Clone, Copy, PartialEq, Eq, Structural)]
pub struct AbsInfo {
    pub code: u16,
    pub minimum: i32,
    pub maximum: i32,
    pub flat: i32,
}

/// The `AxisSpec` that `AxisSpec::from_range` builds from `info`.
pub open spec fn axis_spec_of(info: AbsInfo) -> AxisSpec {
    AxisSpec {
        min: info.minimum,
        max: info.maximum,
        center: range_center(info.minimum as int, info.maximum as int) as i32,
        deadzone: range_deadzone(info.minimum as int, info.maximum as int, info.flat as int) as i32,
    }
}

/// A device reports no range for an axis it lacks: minimum and maximum 0.
pub open spec fn reports_range(info: AbsInfo) -> bool {
    !(info.minimum == 0 && info.maximum == 0)
}

/// Building the spec of a reported axis stays within `i32`.
pub open spec fn infos_fit(infos: Seq<AbsInfo>) -> bool {
    forall|i: int|
        0 <= i < infos.len() && reports_range(#[trigger] infos[i]) ==> fits_i32(
            infos[i].maximum - infos[i].minimum,
        )
}

/// The axis table of a device: every reported axis keyed by its code (a
/// later report of the same code replaces an earlier one).
pub open spec fn axis_table(infos: Seq<AbsInfo>) -> Map<u16, AxisSpec>
    decreases infos.len(),
{
    if infos.len() == 0 {
        Map::empty()
    } else {
        let rest = axis_table(infos.drop_last());
        let info = infos.last();
        if reports_range(info) {
            rest.insert(info.code, axis_spec_of(info))
        } else {
            rest
        }
    }
}

/// Whether every reported axis range fits the arithmetic of
/// `AxisSpec::from_range` (the precondition of `EvdevSource::new`).
pub fn abs_infos_fit(infos: &Vec<AbsInfo>) -> (r: bool)
    ensures
        r == infos_fit(infos@),
{
    let mut i: usize = 0;
    while i < infos.len()
        invariant
            i <= infos.len(),
            infos_fit(infos@.take(i as int)),
            forall|j: int|
                0 <= j < i && reports_range(#[trigger] infos@[j]) ==> fits_i32(
                    infos@[j].maximum - infos@[j].minimum,
                ),
        decreases infos.len() - i,
    {
        let info = infos[i];
        if !(info.minimum == 0 && info.maximum == 0) {
            let width = info.maximum as i64 - info.minimum as i64;
            if width < i32::MIN as i64 || width > i32::MAX as i64 {
                return false;
            }
        }
        i = i + 1;
        assert(infos_fit(infos@.take(i as int)));
    }
    true
}

/// Real evdev-backed event source: the opened device and the axis table
/// read from it when it was opened.
pub struct EvdevSource {
    pub device: evdev::Device,
    axis_specs: HashMap<u16, AxisSpec>,
}

impl EvdevSource {
    /// The axis table this source answers from.
    pub closed spec fn specs(&self) -> Map<u16, AxisSpec> {
        self.axis_specs@
    }

    /// The device this source reads.
    pub closed spec fn held_device(&self) -> evdev::Device {
        self.device
    }

    /// Wrap an opened device together with the `input_absinfo` of its
    /// gamepad axes (in `GAMEPAD_AXES` order).
    pub fn new(device: evdev::Device, infos: &Vec<AbsInfo>) -> (r: Self)
        requires
            infos_fit(infos@),
        ensures
            r.specs() == axis_table(infos@),
            r.held_device() == device,
    {
        EvdevSource { device, axis_specs: build_axis_table(infos) }
    }

    /// Axis metadata for `code`, when the device reports it.
    pub fn axis_spec(&self, code: u16) -> (r: Option<AxisSpec>)
        ensures
            r == (if self.specs().contains_key(code) {
                Some(self.specs()[code])
            } else {
                None
            }),
    {
        match self.axis_specs.get(&code) {
            Some(spec) => Some(*spec),
            None => None,
        }
    }

    /// The whole axis table, for the translation of events.
    pub fn axis_specs(&self) -> (r: &HashMap<u16, AxisSpec>)
        ensures
            r@ == self.specs(),
    {
        &self.axis_specs
    }
}

/// Build the axis table of `infos`.
pub fn build_axis_table(infos: &Vec<AbsInfo>) -> (r: HashMap<u16, AxisSpec>)
    requires
        infos_fit(infos@),
    ensures
        r@ == axis_table(infos@),
{
    let mut table: HashMap<u16, AxisSpec> = HashMap::new();
    let mut i: usize = 0;
    while i < infos.len()
        invariant
            i <= infos.len(),
            infos_fit(infos@),
            table@ == axis_table(infos@.take(i as int)),
        decreases infos.len() - i,
    {
        let info = infos[i];
        assert(infos@.take(i + 1).drop_last() =~= infos@.take(i as int));
        assert(infos@.take(i + 1).last() == info);
        if !(info.minimum == 0 && info.maximum == 0) {
            assert(reports_range(infos@[i as int]));
            let spec = AxisSpec::from_range(info.minimum, info.maximum, info.flat);
            assert(spec == axis_spec_of(info));
            table.insert(info.code, spec);
        }
        i = i + 1;
    }
    assert(infos@.take(infos.len() as int) =~= infos@);
    table
}

}
