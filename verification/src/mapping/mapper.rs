//! Runtime translation of physical evdev events into Xbox virtual events.
//!
//! Pure: given a mapping, the physical device's axis metadata, and one
//! physical event, produce the Xbox virtual events to emit.
//!
//! Stick and trigger values are rescaled with exact integer arithmetic: the
//! result is the real-valued rescaling rounded half away from zero, then
//! clamped to the Xbox range.

use std::collections::HashMap;

use vstd::prelude::*;

use crate::controllers::evdev::{fits_i32, key_name, AxisSpec, InputEvent, EV_ABS, EV_KEY};
use crate::mapping::detector::{spec_commit, Capture};
use crate::mapping::model::{
    axis_source, control_at, is_stick, AxisMapping, AxisView, ControlId, ControllerMapping,
    InputSource, MappingView, SourceView,
};

verus! {

broadcast use vstd::std_specs::hash::group_hash_axioms;

/// A single event to write to the virtual Xbox controller.
#[derive(Debug, Clone, Copy, PartialEq, Eq, Structural)]
pub struct VirtualEvent {
    /// `EV_KEY` (1) or `EV_ABS` (3).
    pub kind: u16,
    /// Linux input code on the Xbox controller (304..318 or 0..17).
    pub code: u16,
    pub value: i32,
}

impl VirtualEvent {
    pub fn key(code: u16, value: i32) -> (r: Self)
        ensures
            r == (VirtualEvent { kind: EV_KEY, code, value }),
    {
        VirtualEvent { kind: EV_KEY, code, value }
    }

    pub fn abs(code: u16, value: i32) -> (r: Self)
        ensures
            r == (VirtualEvent { kind: EV_ABS, code, value }),
    {
        VirtualEvent { kind: EV_ABS, code, value }
    }
}

/// Xbox virtual button codes (same values as Linux `BTN_*` constants).
pub const XBOX_A: u16 = 304;

pub const XBOX_B: u16 = 305;

pub const XBOX_X: u16 = 308;

pub const XBOX_Y: u16 = 307;

pub const XBOX_L1: u16 = 310;

pub const XBOX_R1: u16 = 311;

pub const XBOX_L2: u16 = 312;

pub const XBOX_R2: u16 = 313;

pub const XBOX_BACK: u16 = 314;

pub const XBOX_START: u16 = 315;

pub const XBOX_GUIDE: u16 = 316;

pub const XBOX_L3: u16 = 317;

pub const XBOX_R3: u16 = 318;

/// Xbox virtual stick axes.
pub const XBOX_ABS_X: u16 = 0;

pub const XBOX_ABS_Y: u16 = 1;

pub const XBOX_ABS_L2: u16 = 2;

pub const XBOX_ABS_RX: u16 = 3;

pub const XBOX_ABS_RY: u16 = 4;

pub const XBOX_ABS_R2: u16 = 5;

/// The Xbox key code of a key-mapped control.
pub open spec fn spec_xbox_key_code(control: ControlId) -> Option<u16> {
    match control {
        ControlId::A => Some(XBOX_A),
        ControlId::B => Some(XBOX_B),
        ControlId::X => Some(XBOX_X),
        ControlId::Y => Some(XBOX_Y),
        ControlId::L1 => Some(XBOX_L1),
        ControlId::R1 => Some(XBOX_R1),
        ControlId::L2 => Some(XBOX_L2),
        ControlId::R2 => Some(XBOX_R2),
        ControlId::Back => Some(XBOX_BACK),
        ControlId::Start => Some(XBOX_START),
        ControlId::Guide => Some(XBOX_GUIDE),
        ControlId::L3 => Some(XBOX_L3),
        ControlId::R3 => Some(XBOX_R3),
        _ => None,
    }
}

/// The Xbox stick axis code of a stick control.
pub open spec fn spec_xbox_axis_code(control: ControlId) -> Option<u16> {
    match control {
        ControlId::LeftStickX => Some(XBOX_ABS_X),
        ControlId::LeftStickY => Some(XBOX_ABS_Y),
        ControlId::RightStickX => Some(XBOX_ABS_RX),
        ControlId::RightStickY => Some(XBOX_ABS_RY),
        _ => None,
    }
}

/// The Xbox trigger axis code of L2/R2.
pub open spec fn spec_xbox_trigger_code(control: ControlId) -> Option<u16> {
    match control {
        ControlId::L2 => Some(XBOX_ABS_L2),
        ControlId::R2 => Some(XBOX_ABS_R2),
        _ => None,
    }
}

/// The Xbox key code for a button `ControlId`, if it is a key-mapped control.
pub fn xbox_key_code(control: ControlId) -> (r: Option<u16>)
    ensures
        r == spec_xbox_key_code(control),
{
    match control {
        ControlId::A => Some(XBOX_A),
        ControlId::B => Some(XBOX_B),
        ControlId::X => Some(XBOX_X),
        ControlId::Y => Some(XBOX_Y),
        ControlId::L1 => Some(XBOX_L1),
        ControlId::R1 => Some(XBOX_R1),
        ControlId::L2 => Some(XBOX_L2),
        ControlId::R2 => Some(XBOX_R2),
        ControlId::Back => Some(XBOX_BACK),
        ControlId::Start => Some(XBOX_START),
        ControlId::Guide => Some(XBOX_GUIDE),
        ControlId::L3 => Some(XBOX_L3),
        ControlId::R3 => Some(XBOX_R3),
        _ => None,
    }
}

/// The Xbox stick axis code for a stick `ControlId`.
pub fn xbox_axis_code(control: ControlId) -> (r: Option<u16>)
    ensures
        r == spec_xbox_axis_code(control),
{
    match control {
        ControlId::LeftStickX => Some(XBOX_ABS_X),
        ControlId::LeftStickY => Some(XBOX_ABS_Y),
        ControlId::RightStickX => Some(XBOX_ABS_RX),
        ControlId::RightStickY => Some(XBOX_ABS_RY),
        _ => None,
    }
}

/// The Xbox trigger axis code for L2/R2.
pub fn xbox_trigger_code(control: ControlId) -> (r: Option<u16>)
    ensures
        r == spec_xbox_trigger_code(control),
{
    match control {
        ControlId::L2 => Some(XBOX_ABS_L2),
        ControlId::R2 => Some(XBOX_ABS_R2),
        _ => None,
    }
}

/// `p / q` rounded to the nearest integer, halves away from zero (`q > 0`).
pub open spec fn round_div(p: int, q: int) -> int
    recommends
        q > 0,
{
    if p >= 0 {
        (2 * p + q) / (2 * q)
    } else {
        -((-2 * p + q) / (2 * q))
    }
}

/// `v` clamped to `[lo, hi]`.
pub open spec fn clamp(v: int, lo: int, hi: int) -> int {
    if v < lo {
        lo
    } else if v > hi {
        hi
    } else {
        v
    }
}

/// The width of an axis range used as divisor: `max - min`, at least 1.
pub open spec fn range_width(spec: AxisSpec) -> int {
    if spec.max - spec.min >= 1 {
        spec.max - spec.min
    } else {
        1
    }
}

/// A stick value on the Xbox `[-32767, 32767]` range.
///
/// Values within the dead zone become `0`; otherwise the position inside
/// `[min, max]` is mapped linearly onto `[-32767, 32767]`, rounded and
/// clamped. `invert` negates the result.
///
/// The rescaling is computed exactly on integers and rounded half away
/// from zero. A computation in `f64` arithmetic (divide, double, subtract
/// one, multiply by 32767, round) agrees on the common axis ranges but can
/// land one unit away where its rounding errors meet a value lying at or
/// next to a half: on the range `0..=131068` the value `383` gives `-32576`
/// here and `-32575` in `f64`.
pub open spec fn stick_value(spec: Option<AxisSpec>, value: i32, invert: bool) -> int {
    let scaled = match spec {
        None => clamp(value as int, -32767, 32767),
        Some(s) => if s.spec_is_center(value as int) {
            0
        } else {
            clamp(
                round_div(32767 * (2 * (value - s.min) - range_width(s)), range_width(s)),
                -32767,
                32767,
            )
        },
    };
    if invert {
        -scaled
    } else {
        scaled
    }
}

/// A trigger value on the Xbox `[0, 255]` range.
pub open spec fn trigger_value(spec: Option<AxisSpec>, value: i32) -> int {
    match spec {
        None => clamp(value as int, 0, 255),
        Some(s) => if value <= s.min {
            0
        } else {
            clamp(round_div(255 * (value - s.min), range_width(s)), 0, 255)
        },
    }
}

/// Scaling a stick value stays within `i32` arithmetic.
pub open spec fn stick_scale_safe(spec: AxisSpec, value: i32) -> bool {
    &&& spec.center_safe(value as int)
    &&& (!spec.spec_is_center(value as int) ==> fits_i32(value - spec.min) && fits_i32(
        spec.max - spec.min,
    ))
}

/// Scaling a trigger value stays within `i32` arithmetic.
pub open spec fn trigger_scale_safe(spec: AxisSpec, value: i32) -> bool {
    value > spec.min ==> fits_i32(value - spec.min) && fits_i32(spec.max - spec.min)
}

/// The optional value of a map.
pub open spec fn map_get<K, V>(m: Map<K, V>, k: K) -> Option<V> {
    if m.contains_key(k) {
        Some(m[k])
    } else {
        None
    }
}

/// The key events emitted, in capture order, for the first `n` controls.
pub open spec fn key_outputs(m: MappingView, event: InputEvent, n: nat) -> Seq<VirtualEvent>
    decreases n,
{
    if n == 0 {
        seq![]
    } else {
        let control = control_at(n - 1);
        key_outputs(m, event, (n - 1) as nat) + match m.button_of(control) {
            Some(SourceView::Key { code, .. }) => if code == event.code && spec_xbox_key_code(
                control,
            ) is Some {
                seq![
                    VirtualEvent {
                        kind: EV_KEY,
                        code: spec_xbox_key_code(control)->0,
                        value: event.value,
                    },
                ]
            } else {
                seq![]
            },
            _ => seq![],
        }
    }
}

/// The virtual events for a physical key event: press (1) and release (0)
/// are forwarded to every control mapped to that key; auto-repeat and other
/// values produce nothing.
pub open spec fn spec_translate_key(m: MappingView, event: InputEvent) -> Seq<VirtualEvent> {
    if event.value != 0 && event.value != 1 {
        seq![]
    } else {
        key_outputs(m, event, 21)
    }
}

/// The stick event for `control` when its axis binding reads `event.code`.
pub open spec fn stick_output(
    m: MappingView,
    specs: Map<u16, AxisSpec>,
    event: InputEvent,
    control: ControlId,
) -> Seq<VirtualEvent> {
    match m.axis_of(control) {
        Some(axis) => if axis.source.code() == event.code && spec_xbox_axis_code(control) is Some {
            seq![
                VirtualEvent {
                    kind: EV_ABS,
                    code: spec_xbox_axis_code(control)->0,
                    value: stick_value(map_get(specs, event.code), event.value, axis.invert) as i32,
                },
            ]
        } else {
            seq![]
        },
        None => seq![],
    }
}

/// The trigger event for `control` when its source is the axis `event.code`.
pub open spec fn trigger_output(
    m: MappingView,
    specs: Map<u16, AxisSpec>,
    event: InputEvent,
    control: ControlId,
) -> Seq<VirtualEvent> {
    match m.button_of(control) {
        Some(SourceView::Axis { code, .. }) => if code == event.code && spec_xbox_trigger_code(
            control,
        ) is Some {
            seq![
                VirtualEvent {
                    kind: EV_ABS,
                    code: spec_xbox_trigger_code(control)->0,
                    value: trigger_value(map_get(specs, event.code), event.value) as i32,
                },
            ]
        } else {
            seq![]
        },
        _ => seq![],
    }
}

/// Whether `s` is a hat source on `code`.
pub open spec fn is_hat_on(s: Option<SourceView>, code: u16) -> bool {
    match s {
        Some(SourceView::Hat { code: c, .. }) => c == code,
        _ => false,
    }
}

/// Whether `s` is an axis source on `code`.
pub open spec fn is_axis_on(s: Option<SourceView>, code: u16) -> bool {
    match s {
        Some(SourceView::Axis { code: c, .. }) => c == code,
        _ => false,
    }
}

/// Whether `a` is a stick binding whose source has `code`.
pub open spec fn axis_reads(a: Option<AxisView>, code: u16) -> bool {
    match a {
        Some(axis) => axis.source.code() == code,
        None => false,
    }
}

/// Whether a d-pad control uses a hat on `hat_code`.
pub open spec fn spec_hat_is_mapped(m: MappingView, hat_code: u16) -> bool {
    ||| is_hat_on(m.button_of(ControlId::DPadLeft), hat_code)
    ||| is_hat_on(m.button_of(ControlId::DPadRight), hat_code)
    ||| is_hat_on(m.button_of(ControlId::DPadUp), hat_code)
    ||| is_hat_on(m.button_of(ControlId::DPadDown), hat_code)
}

/// The virtual events for a physical absolute-axis event: the sticks that
/// read it, then the triggers that read it, then the hat forwarded as is.
pub open spec fn spec_translate_abs(
    m: MappingView,
    specs: Map<u16, AxisSpec>,
    event: InputEvent,
) -> Seq<VirtualEvent> {
    stick_output(m, specs, event, ControlId::LeftStickX) + stick_output(
        m,
        specs,
        event,
        ControlId::LeftStickY,
    ) + stick_output(m, specs, event, ControlId::RightStickX) + stick_output(
        m,
        specs,
        event,
        ControlId::RightStickY,
    ) + trigger_output(m, specs, event, ControlId::L2) + trigger_output(
        m,
        specs,
        event,
        ControlId::R2,
    ) + if (event.code == 16 || event.code == 17) && spec_hat_is_mapped(m, event.code) {
        seq![VirtualEvent { kind: EV_ABS, code: event.code, value: event.value }]
    } else {
        seq![]
    }
}

/// The virtual events one physical event produces.
pub open spec fn spec_translate(
    m: MappingView,
    specs: Map<u16, AxisSpec>,
    event: InputEvent,
) -> Seq<VirtualEvent> {
    if event.type_ == EV_KEY {
        spec_translate_key(m, event)
    } else if event.type_ == EV_ABS {
        spec_translate_abs(m, specs, event)
    } else {
        seq![]
    }
}

/// Whether some stick binding reads the axis `code`.
pub open spec fn stick_reads(m: MappingView, code: u16) -> bool {
    ||| axis_reads(m.axis_of(ControlId::LeftStickX), code)
    ||| axis_reads(m.axis_of(ControlId::LeftStickY), code)
    ||| axis_reads(m.axis_of(ControlId::RightStickX), code)
    ||| axis_reads(m.axis_of(ControlId::RightStickY), code)
}

/// Whether some trigger source is the axis `code`.
pub open spec fn trigger_reads(m: MappingView, code: u16) -> bool {
    is_axis_on(m.button_of(ControlId::L2), code) || is_axis_on(m.button_of(ControlId::R2), code)
}

/// Translating `event` stays within `i32` arithmetic.
pub open spec fn translate_safe(m: MappingView, specs: Map<u16, AxisSpec>, event: InputEvent) -> bool {
    event.type_ == EV_ABS && specs.contains_key(event.code) ==> {
        &&& stick_reads(m, event.code) ==> stick_scale_safe(specs[event.code], event.value)
        &&& trigger_reads(m, event.code) ==> trigger_scale_safe(specs[event.code], event.value)
    }
}

} // verus!

verus! {

fn spec_lookup(specs: &HashMap<u16, AxisSpec>, code: u16) -> (r: Option<AxisSpec>)
    ensures
        r == map_get(specs@, code),
{
    match specs.get(&code) {
        Some(spec) => Some(*spec),
        None => None,
    }
}

fn round_div_i64(p: i64, q: i64) -> (r: i64)
    requires
        q >= 1,
        q <= 0x1_0000_0000,
        -0x0100_0000_0000_0000 <= p <= 0x0100_0000_0000_0000,
    ensures
        r == round_div(p as int, q as int),
{
    if p >= 0 {
        let n: i64 = 2 * p + q;
        let d: i64 = 2 * q;
        assert(n / d <= n) by (nonlinear_arith)
            requires
                n >= 0,
                d >= 1,
        ;
        assert(n / d >= 0) by (nonlinear_arith)
            requires
                n >= 0,
                d >= 1,
        ;
        n / d
    } else {
        let n: i64 = q - 2 * p;
        let d: i64 = 2 * q;
        assert(n / d <= n) by (nonlinear_arith)
            requires
                n >= 0,
                d >= 1,
        ;
        assert(n / d >= 0) by (nonlinear_arith)
            requires
                n >= 0,
                d >= 1,
        ;
        -(n / d)
    }
}

fn clamp_i64(v: i64, lo: i64, hi: i64) -> (r: i64)
    ensures
        r == clamp(v as int, lo as int, hi as int),
{
    if v < lo {
        lo
    } else if v > hi {
        hi
    } else {
        v
    }
}

/// Scale a stick value to the Xbox `[-32767, 32767]` range.
///
/// Values within the dead zone become `0`. `invert` negates the result so a
/// reversed physical axis still pushes the Xbox stick in the mapped direction.
fn scale_stick(spec: Option<AxisSpec>, value: i32, invert: bool) -> (r: i32)
    requires
        spec matches Some(s) ==> stick_scale_safe(s, value),
    ensures
        r == stick_value(spec, value, invert),
{
    let scaled: i32 = match spec {
        None => clamp_i64(value as i64, -32767, 32767) as i32,
        Some(s) => {
            if s.is_center(value) {
                return 0;
            }
            let width: i32 = s.max - s.min;
            let range: i64 = if width >= 1 {
                width as i64
            } else {
                1
            };
            let offset: i32 = value - s.min;
            let p: i64 = 32767 * (2 * (offset as i64) - range);
            clamp_i64(round_div_i64(p, range), -32767, 32767) as i32
        },
    };
    if invert {
        -scaled
    } else {
        scaled
    }
}

/// Scale a trigger value to the Xbox `[0, 255]` range.
fn scale_trigger(spec: Option<AxisSpec>, value: i32) -> (r: i32)
    requires
        spec matches Some(s) ==> trigger_scale_safe(s, value),
    ensures
        r == trigger_value(spec, value),
{
    match spec {
        None => clamp_i64(value as i64, 0, 255) as i32,
        Some(s) => {
            if value <= s.min {
                return 0;
            }
            let width: i32 = s.max - s.min;
            let range: i64 = if width >= 1 {
                width as i64
            } else {
                1
            };
            let offset: i32 = value - s.min;
            clamp_i64(round_div_i64(255 * (offset as i64), range), 0, 255) as i32
        },
    }
}

/// Translate one physical event into the Xbox virtual events to emit.
///
/// A physical button or hat usually produces at most one virtual event; a
/// physical axis can drive several controls if the mapping reuses it (for
/// example a button on one pad used for two Xbox controls).
///
/// Stick and trigger values are rescaled exactly on integers (see
/// `stick_value`), which can differ by one unit from an `f64` rescaling on
/// unusual axis ranges.
pub fn translate_event(
    mapping: &ControllerMapping,
    specs: &HashMap<u16, AxisSpec>,
    event: &InputEvent,
) -> (r: Vec<VirtualEvent>)
    requires
        translate_safe(mapping@, specs@, *event),
    ensures
        r@ == spec_translate(mapping@, specs@, *event),
        event.type_ != EV_KEY && event.type_ != EV_ABS ==> r@.len() == 0,
        event.type_ == EV_KEY && event.value != 0 && event.value != 1 ==> r@.len() == 0,
        event.type_ == EV_KEY && (event.value == 0 || event.value == 1) ==> r@ == key_outputs(
            mapping@,
            *event,
            21,
        ),
        event.type_ == EV_KEY ==> forall|i: int|
            0 <= i < r@.len() ==> (#[trigger] r@[i]).kind == EV_KEY && r@[i].value == event.value,
        event.type_ == EV_ABS ==> forall|i: int| 0 <= i < r@.len() ==> (#[trigger] r@[i]).kind == EV_ABS,
{
    proof {
        law_translation_shape(mapping@, specs@, *event);
        law_repeats_and_other_events_ignored(mapping@, specs@, *event);
    }
    if event.type_ == EV_KEY {
        translate_key(mapping, event)
    } else if event.type_ == EV_ABS {
        translate_abs(mapping, specs, event)
    } else {
        Vec::new()
    }
}

/// Whether translating `event` stays within `i32` arithmetic (the
/// precondition of `translate_event`).
pub fn translate_is_safe(
    mapping: &ControllerMapping,
    specs: &HashMap<u16, AxisSpec>,
    event: &InputEvent,
) -> (r: bool)
    ensures
        r == translate_safe(mapping@, specs@, *event),
{
    if event.type_ != EV_ABS {
        return true;
    }
    let spec = match spec_lookup(specs, event.code) {
        Some(spec) => spec,
        None => return true,
    };
    let value = event.value as i64;
    let fits = |v: i64| -> (b: bool)
        ensures
            b == fits_i32(v as int),
        { (i32::MIN as i64) <= v && v <= (i32::MAX as i64) };
    let width_fits = fits(spec.max as i64 - spec.min as i64);
    let offset_fits = fits(value - spec.min as i64);
    let from_center = value - spec.center as i64;
    let stick_ok = if (i32::MIN as i64) < from_center && from_center <= (i32::MAX as i64) {
        spec.is_center(event.value) || (offset_fits && width_fits)
    } else {
        false
    };
    let trigger_ok = event.value <= spec.min || (offset_fits && width_fits);
    let sticks = reads_stick(mapping, event.code);
    let triggers = reads_trigger(mapping, event.code);
    (!sticks || stick_ok) && (!triggers || trigger_ok)
}

fn axis_binding_reads(axis: Option<&AxisMapping>, code: u16) -> (r: bool)
    ensures
        r == axis_reads(
            match axis {
                Some(a) => Some(a@),
                None => None,
            },
            code,
        ),
{
    match axis {
        Some(a) => a.source.code() == code,
        None => false,
    }
}

fn reads_stick(mapping: &ControllerMapping, code: u16) -> (r: bool)
    ensures
        r == stick_reads(mapping@, code),
{
    axis_binding_reads(mapping.axis_mapping(ControlId::LeftStickX), code) || axis_binding_reads(
        mapping.axis_mapping(ControlId::LeftStickY),
        code,
    ) || axis_binding_reads(mapping.axis_mapping(ControlId::RightStickX), code)
        || axis_binding_reads(mapping.axis_mapping(ControlId::RightStickY), code)
}

fn source_is_axis_on(source: Option<InputSource>, code: u16) -> (r: bool)
    ensures
        r == is_axis_on(
            match source {
                Some(s) => Some(s@),
                None => None,
            },
            code,
        ),
{
    match source {
        Some(InputSource::Axis { code: c, .. }) => c == code,
        _ => false,
    }
}

fn reads_trigger(mapping: &ControllerMapping, code: u16) -> (r: bool)
    ensures
        r == trigger_reads(mapping@, code),
{
    source_is_axis_on(mapping.button_source(ControlId::L2), code) || source_is_axis_on(
        mapping.button_source(ControlId::R2),
        code,
    )
}

fn translate_key(mapping: &ControllerMapping, event: &InputEvent) -> (r: Vec<VirtualEvent>)
    ensures
        r@ == spec_translate_key(mapping@, *event),
{
    if event.value != 0 && event.value != 1 {
        return Vec::new();
    }
    let mut out: Vec<VirtualEvent> = Vec::new();
    let mut i: usize = 0;
    while i < 21
        invariant
            i <= 21,
            event.value == 0 || event.value == 1,
            out@ == key_outputs(mapping@, *event, i as nat),
        decreases 21 - i,
    {
        let control = ControlId::at(i).unwrap();
        let ghost before = out@;
        match mapping.button_source(control) {
            Some(InputSource::Key { code, .. }) => {
                if code == event.code {
                    if let Some(xbox_code) = xbox_key_code(control) {
                        out.push(VirtualEvent::key(xbox_code, event.value));
                    }
                }
            },
            _ => {},
        }
        assert(out@ =~= key_outputs(mapping@, *event, (i + 1) as nat));
        i = i + 1;
    }
    out
}

fn push_stick(
    out: &mut Vec<VirtualEvent>,
    mapping: &ControllerMapping,
    specs: &HashMap<u16, AxisSpec>,
    event: &InputEvent,
    control: ControlId,
)
    requires
        translate_safe(mapping@, specs@, *event),
        event.type_ == EV_ABS,
        control == ControlId::LeftStickX || control == ControlId::LeftStickY || control
            == ControlId::RightStickX || control == ControlId::RightStickY,
    ensures
        final(out)@ == old(out)@ + stick_output(mapping@, specs@, *event, control),
{
    let axis = match mapping.axis_mapping(control) {
        Some(axis) => axis,
        None => {
            assert(old(out)@ + Seq::<VirtualEvent>::empty() =~= old(out)@);
            return ;
        },
    };
    if axis.source.code() != event.code {
        assert(old(out)@ + Seq::<VirtualEvent>::empty() =~= old(out)@);
        return ;
    }
    assert(stick_reads(mapping@, event.code));
    let value = scale_stick(spec_lookup(specs, event.code), event.value, axis.invert);
    if let Some(code) = xbox_axis_code(control) {
        out.push(VirtualEvent::abs(code, value));
    }
}

fn push_trigger(
    out: &mut Vec<VirtualEvent>,
    mapping: &ControllerMapping,
    specs: &HashMap<u16, AxisSpec>,
    event: &InputEvent,
    control: ControlId,
)
    requires
        translate_safe(mapping@, specs@, *event),
        event.type_ == EV_ABS,
        control == ControlId::L2 || control == ControlId::R2,
    ensures
        final(out)@ == old(out)@ + trigger_output(mapping@, specs@, *event, control),
{
    let code = match mapping.button_source(control) {
        Some(InputSource::Axis { code, .. }) => code,
        _ => {
            assert(old(out)@ + Seq::<VirtualEvent>::empty() =~= old(out)@);
            return ;
        },
    };
    if code != event.code {
        assert(old(out)@ + Seq::<VirtualEvent>::empty() =~= old(out)@);
        return ;
    }
    assert(trigger_reads(mapping@, event.code));
    let value = scale_trigger(spec_lookup(specs, event.code), event.value);
    if let Some(xbox_code) = xbox_trigger_code(control) {
        out.push(VirtualEvent::abs(xbox_code, value));
    }
}

fn translate_abs(
    mapping: &ControllerMapping,
    specs: &HashMap<u16, AxisSpec>,
    event: &InputEvent,
) -> (r: Vec<VirtualEvent>)
    requires
        translate_safe(mapping@, specs@, *event),
        event.type_ == EV_ABS,
    ensures
        r@ == spec_translate_abs(mapping@, specs@, *event),
{
    let mut out: Vec<VirtualEvent> = Vec::new();
    // Sticks.
    push_stick(&mut out, mapping, specs, event, ControlId::LeftStickX);
    push_stick(&mut out, mapping, specs, event, ControlId::LeftStickY);
    push_stick(&mut out, mapping, specs, event, ControlId::RightStickX);
    push_stick(&mut out, mapping, specs, event, ControlId::RightStickY);
    // Triggers.
    push_trigger(&mut out, mapping, specs, event, ControlId::L2);
    push_trigger(&mut out, mapping, specs, event, ControlId::R2);
    // D-pad hats forward to the matching Xbox hat axis.
    let ghost before = out@;
    if (event.code == 16 || event.code == 17) && hat_is_mapped(mapping, event.code) {
        out.push(VirtualEvent::abs(event.code, event.value));
    }
    assert(out@ =~= spec_translate_abs(mapping@, specs@, *event));
    out
}

fn source_is_hat_on(source: Option<InputSource>, code: u16) -> (r: bool)
    ensures
        r == is_hat_on(
            match source {
                Some(s) => Some(s@),
                None => None,
            },
            code,
        ),
{
    match source {
        Some(InputSource::Hat { code: c, .. }) => c == code,
        _ => false,
    }
}

/// Whether any mapped control uses a hat on `hat_code`.
fn hat_is_mapped(mapping: &ControllerMapping, hat_code: u16) -> (r: bool)
    ensures
        r == spec_hat_is_mapped(mapping@, hat_code),
{
    source_is_hat_on(mapping.button_source(ControlId::DPadLeft), hat_code) || source_is_hat_on(
        mapping.button_source(ControlId::DPadRight),
        hat_code,
    ) || source_is_hat_on(mapping.button_source(ControlId::DPadUp), hat_code)
        || source_is_hat_on(mapping.button_source(ControlId::DPadDown), hat_code)
}

} // verus!

verus! {

/// Whether `e` addresses a control of the virtual Xbox pad: one of its 13
/// buttons, its four stick axes, its two trigger axes or its two hat axes.
pub open spec fn targets_xbox_control(e: VirtualEvent) -> bool {
    ||| e.kind == EV_KEY && (e.code == XBOX_A || e.code == XBOX_B || e.code == XBOX_X || e.code
        == XBOX_Y || e.code == XBOX_L1 || e.code == XBOX_R1 || e.code == XBOX_L2 || e.code
        == XBOX_R2 || e.code == XBOX_BACK || e.code == XBOX_START || e.code == XBOX_GUIDE
        || e.code == XBOX_L3 || e.code == XBOX_R3)
    ||| e.kind == EV_ABS && (e.code <= 5 || e.code == 16 || e.code == 17)
}

/// An inverted stick reports exactly the negation of the same stick not
/// inverted.
pub proof fn law_inversion_negates(spec: Option<AxisSpec>, value: i32)
    ensures
        stick_value(spec, value, true) == -stick_value(spec, value, false),
{
}

/// Stick values stay in `[-32767, 32767]`, trigger values in `[0, 255]`, a
/// stick resting inside its dead zone reads exactly `0`, and a trigger at or
/// below its minimum reads exactly `0`. Without axis metadata the raw value
/// is only clamped.
pub proof fn law_scaled_values_in_range(spec: Option<AxisSpec>, value: i32, invert: bool)
    ensures
        -32767 <= stick_value(spec, value, invert) <= 32767,
        0 <= trigger_value(spec, value) <= 255,
        spec matches Some(s) && s.spec_is_center(value as int) ==> stick_value(
            spec,
            value,
            invert,
        ) == 0,
        spec matches Some(s) && value <= s.min ==> trigger_value(spec, value) == 0,
        spec is None ==> stick_value(spec, value, false) == clamp(value as int, -32767, 32767),
        spec is None ==> trigger_value(spec, value) == clamp(value as int, 0, 255),
{
}

/// Key auto-repeat (any value other than press 1 and release 0) and events
/// that are neither keys nor absolute axes produce nothing.
pub proof fn law_repeats_and_other_events_ignored(
    m: MappingView,
    specs: Map<u16, AxisSpec>,
    event: InputEvent,
)
    ensures
        event.type_ == EV_KEY && event.value != 0 && event.value != 1 ==> spec_translate(
            m,
            specs,
            event,
        ) == Seq::<VirtualEvent>::empty(),
        event.type_ != EV_KEY && event.type_ != EV_ABS ==> spec_translate(m, specs, event)
            == Seq::<VirtualEvent>::empty(),
{
}

/// A key that no control is mapped to produces nothing.
pub proof fn law_unmapped_key_produces_nothing(m: MappingView, specs: Map<u16, AxisSpec>, event: InputEvent)
    requires
        event.type_ == EV_KEY,
        forall|c: ControlId| !(#[trigger] m.button_of(c) matches Some(SourceView::Key { code, .. })
            && code == event.code),
    ensures
        spec_translate(m, specs, event) == Seq::<VirtualEvent>::empty(),
{
    lemma_unmapped_key_outputs(m, event, 21);
}

proof fn lemma_unmapped_key_outputs(m: MappingView, event: InputEvent, n: nat)
    requires
        forall|c: ControlId| !(#[trigger] m.button_of(c) matches Some(SourceView::Key { code, .. })
            && code == event.code),
    ensures
        key_outputs(m, event, n) == Seq::<VirtualEvent>::empty(),
    decreases n,
{
    if n > 0 {
        lemma_unmapped_key_outputs(m, event, (n - 1) as nat);
        let c = control_at(n - 1);
        assert(!(m.button_of(c) matches Some(SourceView::Key { code, .. }) && code == event.code));
        assert(key_outputs(m, event, n) =~= Seq::<VirtualEvent>::empty());
    }
}

/// Every event the translation emits addresses a control of the virtual
/// Xbox pad.
pub proof fn law_outputs_target_xbox_controls(
    m: MappingView,
    specs: Map<u16, AxisSpec>,
    event: InputEvent,
)
    ensures
        forall|i: int|
            0 <= i < spec_translate(m, specs, event).len() ==> targets_xbox_control(
                #[trigger] spec_translate(m, specs, event)[i],
            ),
{
    lemma_key_outputs_target(m, event, 21);
    let s = spec_translate(m, specs, event);
    if event.type_ == EV_ABS {
        assert forall|i: int| 0 <= i < s.len() implies targets_xbox_control(#[trigger] s[i]) by {
        }
    }
}

proof fn lemma_key_outputs_target(m: MappingView, event: InputEvent, n: nat)
    ensures
        forall|i: int|
            0 <= i < key_outputs(m, event, n).len() ==> targets_xbox_control(
                #[trigger] key_outputs(m, event, n)[i],
            ),
    decreases n,
{
    if n > 0 {
        lemma_key_outputs_target(m, event, (n - 1) as nat);
        let prev = key_outputs(m, event, (n - 1) as nat);
        let all = key_outputs(m, event, n);
        let c = control_at(n - 1);
        assert forall|i: int| 0 <= i < all.len() implies targets_xbox_control(#[trigger] all[i]) by {
            if i >= prev.len() {
                assert(spec_xbox_key_code(c) is Some ==> targets_xbox_control(
                    VirtualEvent { kind: EV_KEY, code: spec_xbox_key_code(c)->0, value: event.value },
                ));
            } else {
                assert(all[i] == prev[i]);
            }
        }
    }
}


/// An axis range symmetric around 0: `-max..=max` or `-max-1..=max`.
pub open spec fn symmetric_range(spec: AxisSpec) -> bool {
    spec.max >= 1 && (spec.min == -spec.max || spec.min == -spec.max - 1)
}

proof fn lemma_round_div_sign(p: int, q: int)
    requires
        q > 0,
    ensures
        p >= 0 ==> round_div(p, q) >= 0,
        p <= 0 ==> round_div(p, q) <= 0,
{
    assert(p >= 0 ==> (2 * p + q) / (2 * q) >= 0) by (nonlinear_arith)
        requires
            q > 0,
    ;
    assert(p <= 0 ==> (-2 * p + q) / (2 * q) >= 0) by (nonlinear_arith)
        requires
            q > 0,
    ;
    assert(q / (2 * q) == 0) by (nonlinear_arith)
        requires
            q > 0,
    ;
}

/// The direction a stick is pushed while it is captured reads as the Xbox
/// negative direction (LEFT or UP) from then on, and the other direction as
/// positive: after capturing `control` from axis `code` with furthest
/// deflection `peak`, a later reading on the same side of 0 as `peak` is
/// emitted as a value at most 0, and a reading on the other side as a value
/// at least 0 (for axes whose range is symmetric around 0).
pub proof fn law_captured_direction_reads_negative(
    m: MappingView,
    specs: Map<u16, AxisSpec>,
    control: ControlId,
    code: u16,
    peak: i32,
    value: i32,
)
    requires
        is_stick(control),
        peak != 0,
        specs.contains_key(code),
        symmetric_range(specs[code]),
    ensures
        ({
            let bound = spec_commit(m, control, Capture::Axis { code, peak, trigger: false });
            let out = stick_output(
                bound,
                specs,
                InputEvent { type_: EV_ABS, code, value },
                control,
            );
            &&& out.len() == 1
            &&& out[0].code == spec_xbox_axis_code(control)->0
            &&& (value > 0 && peak > 0) || (value < 0 && peak < 0) ==> out[0].value <= 0
            &&& (value > 0 && peak < 0) || (value < 0 && peak > 0) ==> out[0].value >= 0
        }),
{
    let s = specs[code];
    let bound = spec_commit(m, control, Capture::Axis { code, peak, trigger: false });
    assert(bound.axis_of(control) == Some(AxisView { source: axis_source(code), invert: peak > 0 }));
    let w = range_width(s);
    let p = 32767 * (2 * (value - s.min) - w);
    lemma_round_div_sign(p, w);
    law_scaled_values_in_range(Some(s), value, peak > 0);
    assert(value > 0 ==> p >= 0);
    assert(value < 0 ==> p <= 0);
}


/// Pressing a trigger further never lowers its Xbox value.
pub proof fn law_trigger_is_monotonic(spec: Option<AxisSpec>, v1: i32, v2: i32)
    requires
        v1 <= v2,
    ensures
        trigger_value(spec, v1) <= trigger_value(spec, v2),
{
    law_scaled_values_in_range(spec, v1, false);
    law_scaled_values_in_range(spec, v2, false);
    if let Some(s) = spec {
        if v1 > s.min {
            let w = range_width(s);
            let p1 = 255 * (v1 - s.min);
            let p2 = 255 * (v2 - s.min);
            vstd::arithmetic::div_mod::lemma_div_is_ordered(2 * p1 + w, 2 * p2 + w, 2 * w);
        }
    }
}

/// A trigger pressed to the end of its range reads the full Xbox value 255.
pub proof fn law_trigger_full_press_reads_max(s: AxisSpec)
    requires
        s.min < s.max,
    ensures
        trigger_value(Some(s), s.max) == 255,
{
    let w = s.max - s.min;
    assert(2 * (255 * w) + w == 255 * (2 * w) + w) by (nonlinear_arith);
    vstd::arithmetic::div_mod::lemma_fundamental_div_mod_converse(
        2 * (255 * w) + w,
        2 * w,
        255,
        w,
    );
}

/// The shape of a translation: events that are neither keys nor absolute
/// axes give nothing; a key press or release gives, for every control in
/// capture order whose source is that key, the Xbox button event with the
/// same value, and nothing else; an absolute-axis event gives only
/// absolute-axis events.
pub proof fn law_translation_shape(m: MappingView, specs: Map<u16, AxisSpec>, event: InputEvent)
    ensures
        event.type_ != EV_KEY && event.type_ != EV_ABS ==> spec_translate(m, specs, event)
            == Seq::<VirtualEvent>::empty(),
        event.type_ == EV_KEY && (event.value == 0 || event.value == 1) ==> spec_translate(
            m,
            specs,
            event,
        ) == key_outputs(m, event, 21),
        event.type_ == EV_KEY ==> forall|i: int|
            0 <= i < spec_translate(m, specs, event).len() ==> (#[trigger] spec_translate(
                m,
                specs,
                event,
            )[i]).kind == EV_KEY && spec_translate(m, specs, event)[i].value == event.value,
        event.type_ == EV_ABS ==> forall|i: int|
            0 <= i < spec_translate(m, specs, event).len() ==> (#[trigger] spec_translate(
                m,
                specs,
                event,
            )[i]).kind == EV_ABS,
{
    lemma_key_outputs_kind(m, event, 21);
}

proof fn lemma_key_outputs_kind(m: MappingView, event: InputEvent, n: nat)
    ensures
        forall|i: int|
            0 <= i < key_outputs(m, event, n).len() ==> (#[trigger] key_outputs(m, event, n)[i]).kind
                == EV_KEY && key_outputs(m, event, n)[i].value == event.value,
    decreases n,
{
    if n > 0 {
        lemma_key_outputs_kind(m, event, (n - 1) as nat);
        let prev = key_outputs(m, event, (n - 1) as nat);
        let all = key_outputs(m, event, n);
        assert forall|i: int| 0 <= i < all.len() implies (#[trigger] all[i]).kind == EV_KEY
            && all[i].value == event.value by {
            if i < prev.len() {
                assert(all[i] == prev[i]);
            }
        }
    }
}


/// Stick scaling: the Xbox value lies in `[-32767, 32767]`, inverting
/// negates it, a value inside the dead zone reads `0`, and without axis
/// metadata the raw value is only clamped to that range.
pub proof fn law_stick_scaling(spec: Option<AxisSpec>, value: i32, invert: bool)
    ensures
        -32767 <= stick_value(spec, value, invert) <= 32767,
        stick_value(spec, value, true) == -stick_value(spec, value, false),
        spec matches Some(s) && s.spec_is_center(value as int) ==> stick_value(spec, value, invert)
            == 0,
        spec is None ==> stick_value(spec, value, false) == clamp(value as int, -32767, 32767),
{
    law_scaled_values_in_range(spec, value, invert);
    law_inversion_negates(spec, value);
}

/// Trigger scaling: the Xbox value lies in `[0, 255]` and never falls as
/// the trigger is pressed further; at or below the minimum it reads `0`, at
/// the maximum of a non-empty range it reads `255`, and without axis
/// metadata the raw value is only clamped to `[0, 255]`.
pub proof fn law_trigger_scaling(spec: Option<AxisSpec>, v1: i32, v2: i32)
    requires
        v1 <= v2,
    ensures
        0 <= trigger_value(spec, v1) <= 255,
        trigger_value(spec, v1) <= trigger_value(spec, v2),
        spec matches Some(s) && v1 <= s.min ==> trigger_value(spec, v1) == 0,
        spec is Some && spec->0.min < spec->0.max ==> trigger_value(spec, spec->0.max) == 255,
        spec is None ==> trigger_value(spec, v1) == clamp(v1 as int, 0, 255),
{
    law_scaled_values_in_range(spec, v1, false);
    law_trigger_is_monotonic(spec, v1, v2);
    if let Some(s) = spec {
        if s.min < s.max {
            law_trigger_full_press_reads_max(s);
        }
    }
}


/// The quotient `q` of `(2p + w) / (2w)` for `w > 0` and `2p + w >= 0`
/// satisfies `2p - w < 2wq <= 2p + w`.
proof fn lemma_half_up_quotient(p: int, w: int)
    requires
        w > 0,
        2 * p + w >= 0,
    ensures
        2 * p - w < 2 * w * ((2 * p + w) / (2 * w)) <= 2 * p + w,
{
    let x = 2 * p + w;
    let d = 2 * w;
    vstd::arithmetic::div_mod::lemma_fundamental_div_mod(x, d);
    vstd::arithmetic::div_mod::lemma_mod_pos_bound(x, d);
}

/// A trigger inside its range is rescaled proportionally: the Xbox value
/// `r` is the integer nearest to `255 * (value - min) / (max - min)`, a half
/// rounding up, i.e. `255 (value - min) - w/2 < r w <= 255 (value - min) + w/2`
/// with `w = max - min`.
pub proof fn law_trigger_is_proportional(s: AxisSpec, value: i32)
    requires
        s.min < value <= s.max,
    ensures
        ({
            let w = s.max - s.min;
            let p = 255 * (value - s.min);
            let r = trigger_value(Some(s), value);
            2 * p - w < 2 * r * w <= 2 * p + w
        }),
{
    let w = s.max - s.min;
    let p = 255 * (value - s.min);
    let q = (2 * p + w) / (2 * w);
    assert(range_width(s) == w);
    assert(round_div(p, w) == q);
    lemma_half_up_quotient(p, w);
    assert(2 * w * q == 2 * q * w) by (nonlinear_arith);
    assert(0 <= q <= 255) by (nonlinear_arith)
        requires
            w > 0,
            0 < p <= 255 * w,
            2 * p - w < 2 * w * q <= 2 * p + w,
    ;
}

/// A stick inside its range and outside its dead zone is rescaled
/// proportionally onto `[-32767, 32767]`: with `w = max - min` and
/// `n = 32767 (2 (value - min) - w)`, the Xbox value `r` (not inverted) is
/// the integer nearest to `n / w`, halves rounded away from zero.
pub proof fn law_stick_is_proportional(s: AxisSpec, value: i32)
    requires
        s.min < s.max,
        s.min <= value <= s.max,
        !s.spec_is_center(value as int),
    ensures
        ({
            let w = s.max - s.min;
            let n = 32767 * (2 * (value - s.min) - w);
            let r = stick_value(Some(s), value, false);
            &&& n >= 0 ==> 2 * n - w < 2 * r * w <= 2 * n + w
            &&& n < 0 ==> 2 * n - w <= 2 * r * w < 2 * n + w
        }),
{
    let w = s.max - s.min;
    let k = 2 * (value - s.min) - w;
    let n = 32767 * k;
    assert(range_width(s) == w);
    assert(-w <= k <= w);
    if n >= 0 {
        let q = (2 * n + w) / (2 * w);
        assert(round_div(n, w) == q);
        lemma_half_up_quotient(n, w);
        assert(2 * w * q == 2 * q * w) by (nonlinear_arith);
        assert(-32767 <= q <= 32767) by (nonlinear_arith)
            requires
                w > 0,
                0 <= n <= 32767 * w,
                2 * n - w < 2 * w * q <= 2 * n + w,
        ;
    } else {
        let q = (-2 * n + w) / (2 * w);
        assert(round_div(n, w) == -q);
        lemma_half_up_quotient(-n, w);
        assert(2 * w * q == 2 * q * w) by (nonlinear_arith);
        assert(2 * (-q) * w == -(2 * q * w)) by (nonlinear_arith);
        assert(0 <= q <= 32767) by (nonlinear_arith)
            requires
                w > 0,
                0 < -n <= 32767 * w,
                -2 * n - w < 2 * w * q <= -2 * n + w,
        ;
    }
}

/// Each button control is written on the Linux gamepad button the Xbox 360
/// pad uses for it (A on `BTN_SOUTH`, B on `BTN_EAST`, X on `BTN_WEST`, Y on
/// `BTN_NORTH`, the bumpers on `BTN_TL`/`BTN_TR`, the triggers as buttons on
/// `BTN_TL2`/`BTN_TR2`, Back on `BTN_SELECT`, Start on `BTN_START`, Guide on
/// `BTN_MODE`, the stick clicks on `BTN_THUMBL`/`BTN_THUMBR`), and no two
/// controls share a button.
pub proof fn law_buttons_use_their_xbox_codes(c: ControlId, d: ControlId)
    ensures
        spec_xbox_key_code(c) is Some ==> key_name(spec_xbox_key_code(c)->0) == match c {
            ControlId::A => "BTN_SOUTH"@,
            ControlId::B => "BTN_EAST"@,
            ControlId::X => "BTN_WEST"@,
            ControlId::Y => "BTN_NORTH"@,
            ControlId::L1 => "BTN_TL"@,
            ControlId::R1 => "BTN_TR"@,
            ControlId::L2 => "BTN_TL2"@,
            ControlId::R2 => "BTN_TR2"@,
            ControlId::Back => "BTN_SELECT"@,
            ControlId::Start => "BTN_START"@,
            ControlId::Guide => "BTN_MODE"@,
            ControlId::L3 => "BTN_THUMBL"@,
            _ => "BTN_THUMBR"@,
        },
        spec_xbox_key_code(c) is Some && spec_xbox_key_code(c) == spec_xbox_key_code(d) ==> c == d,
        spec_xbox_key_code(c) is Some <==> !is_stick(c) && c != ControlId::DPadLeft && c
            != ControlId::DPadRight && c != ControlId::DPadUp && c != ControlId::DPadDown,
{
}

} // verus!
