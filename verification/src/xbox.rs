//! The virtual Xbox 360 controller: the name it is created under, the
//! buttons and axes it registers, how each translated event is written to
//! it, and the backend seam that receives batches of events.

use vstd::prelude::*;

use crate::controllers::evdev::{AxisSpec, InputEvent, EV_ABS, EV_KEY};
use crate::mapping::mapper::{
    law_outputs_target_xbox_controls, law_trigger_full_press_reads_max, spec_translate,
    spec_xbox_axis_code, spec_xbox_trigger_code, stick_value, targets_xbox_control, trigger_value,
    VirtualEvent,
};
use crate::mapping::layouts::layout_view;
use crate::mapping::model::{ControlId, Layout, MappingView, SourceView};
use crate::text::{trim_to_string, trimmed};

verus! {

/// Buttons the virtual pad registers (the Linux `BTN_*` gamepad set).
#[derive(Debug, Clone, Copy, PartialEq, Eq, Structural)]
pub enum GamePadButton {
    South,
    East,
    North,
    West,
    TL,
    TR,
    TL2,
    TR2,
    Select,
    Start,
    Mode,
    ThumbL,
    ThumbR,
}

/// Absolute axes the virtual pad registers: two sticks, two triggers and
/// the d-pad hat.
#[derive(Debug, Clone, Copy, PartialEq, Eq, Structural)]
pub enum XboxAxis {
    X,
    Y,
    Z,
    RX,
    RY,
    RZ,
    Hat0X,
    Hat0Y,
}

/// Errors of a virtual controller backend.
#[derive(Debug, Clone, PartialEq, Eq)]
pub enum XboxError {
    /// `/dev/uinput` could not be opened.
    UinputUnavailable(String),
    /// The backend refused an operation.
    BackendFailed(String),
}

/// One write to the virtual device: a button state or an axis value.
#[derive(Debug, Clone, Copy, PartialEq, Eq, Structural)]
pub enum DeviceWrite {
    Button(GamePadButton, i32),
    Axis(XboxAxis, i32),
}

/// The button with Linux key code `code`, if the pad has it.
pub open spec fn spec_button_from_code(code: u16) -> Option<GamePadButton> {
    if code == 304 {
        Some(GamePadButton::South)
    } else if code == 305 {
        Some(GamePadButton::East)
    } else if code == 307 {
        Some(GamePadButton::North)
    } else if code == 308 {
        Some(GamePadButton::West)
    } else if code == 310 {
        Some(GamePadButton::TL)
    } else if code == 311 {
        Some(GamePadButton::TR)
    } else if code == 312 {
        Some(GamePadButton::TL2)
    } else if code == 313 {
        Some(GamePadButton::TR2)
    } else if code == 314 {
        Some(GamePadButton::Select)
    } else if code == 315 {
        Some(GamePadButton::Start)
    } else if code == 316 {
        Some(GamePadButton::Mode)
    } else if code == 317 {
        Some(GamePadButton::ThumbL)
    } else if code == 318 {
        Some(GamePadButton::ThumbR)
    } else {
        None
    }
}

/// The axis with Linux absolute code `code`, if the pad has it.
pub open spec fn spec_axis_from_code(code: u16) -> Option<XboxAxis> {
    if code == 0 {
        Some(XboxAxis::X)
    } else if code == 1 {
        Some(XboxAxis::Y)
    } else if code == 2 {
        Some(XboxAxis::Z)
    } else if code == 3 {
        Some(XboxAxis::RX)
    } else if code == 4 {
        Some(XboxAxis::RY)
    } else if code == 5 {
        Some(XboxAxis::RZ)
    } else if code == 16 {
        Some(XboxAxis::Hat0X)
    } else if code == 17 {
        Some(XboxAxis::Hat0Y)
    } else {
        None
    }
}

/// Map an Xbox virtual button code to the pad's button.
pub fn button_from_code(code: u16) -> (r: Option<GamePadButton>)
    ensures
        r == spec_button_from_code(code),
{
    match code {
        304 => Some(GamePadButton::South),
        305 => Some(GamePadButton::East),
        307 => Some(GamePadButton::North),
        308 => Some(GamePadButton::West),
        310 => Some(GamePadButton::TL),
        311 => Some(GamePadButton::TR),
        312 => Some(GamePadButton::TL2),
        313 => Some(GamePadButton::TR2),
        314 => Some(GamePadButton::Select),
        315 => Some(GamePadButton::Start),
        316 => Some(GamePadButton::Mode),
        317 => Some(GamePadButton::ThumbL),
        318 => Some(GamePadButton::ThumbR),
        _ => None,
    }
}

/// Map an Xbox virtual absolute code to the pad's axis.
pub fn axis_from_code(code: u16) -> (r: Option<XboxAxis>)
    ensures
        r == spec_axis_from_code(code),
{
    match code {
        0 => Some(XboxAxis::X),
        1 => Some(XboxAxis::Y),
        2 => Some(XboxAxis::Z),
        3 => Some(XboxAxis::RX),
        4 => Some(XboxAxis::RY),
        5 => Some(XboxAxis::RZ),
        16 => Some(XboxAxis::Hat0X),
        17 => Some(XboxAxis::Hat0Y),
        _ => None,
    }
}

/// What writing `event` to the pad does: key events on a registered button
/// set that button, absolute events on a registered axis set that axis, and
/// everything else is dropped.
pub open spec fn spec_device_write(event: VirtualEvent) -> Option<DeviceWrite> {
    if event.kind == EV_KEY {
        match spec_button_from_code(event.code) {
            Some(b) => Some(DeviceWrite::Button(b, event.value)),
            None => None,
        }
    } else if event.kind == EV_ABS {
        match spec_axis_from_code(event.code) {
            Some(a) => Some(DeviceWrite::Axis(a, event.value)),
            None => None,
        }
    } else {
        None
    }
}

/// The device write for one translated event, or `None` when the pad has
/// no such control and the event is skipped.
pub fn device_write(event: &VirtualEvent) -> (r: Option<DeviceWrite>)
    ensures
        r == spec_device_write(*event),
{
    if event.kind == EV_KEY {
        match button_from_code(event.code) {
            Some(b) => Some(DeviceWrite::Button(b, event.value)),
            None => None,
        }
    } else if event.kind == EV_ABS {
        match axis_from_code(event.code) {
            Some(a) => Some(DeviceWrite::Axis(a, event.value)),
            None => None,
        }
    } else {
        None
    }
}

/// Nothing the translation emits is lost on the way to the pad: every event
/// of the translation of any physical event under any mapping becomes a
/// write to a button or an axis the pad registered.
pub proof fn law_translated_events_reach_the_pad(
    m: MappingView,
    specs: Map<u16, AxisSpec>,
    event: InputEvent,
)
    ensures
        forall|i: int|
            0 <= i < spec_translate(m, specs, event).len() ==> (#[trigger] spec_device_write(
                spec_translate(m, specs, event)[i],
            )) is Some,
{
    law_outputs_target_xbox_controls(m, specs, event);
    assert forall|i: int| 0 <= i < spec_translate(m, specs, event).len() implies (
    #[trigger] spec_device_write(spec_translate(m, specs, event)[i])) is Some by {
        assert(targets_xbox_control(spec_translate(m, specs, event)[i]));
    }
}

/// The buttons registered on the pad, in registration order.
pub open spec fn spec_registered_buttons() -> Seq<GamePadButton> {
    seq![
        GamePadButton::South,
        GamePadButton::East,
        GamePadButton::North,
        GamePadButton::West,
        GamePadButton::TL,
        GamePadButton::TR,
        GamePadButton::TL2,
        GamePadButton::TR2,
        GamePadButton::Select,
        GamePadButton::Start,
        GamePadButton::Mode,
        GamePadButton::ThumbL,
        GamePadButton::ThumbR,
    ]
}

/// The buttons registered on the pad: A/B/X/Y, shoulders, triggers as
/// buttons, Back/Start/Guide and the stick clicks.
pub fn registered_buttons() -> (r: Vec<GamePadButton>)
    ensures
        r@ == spec_registered_buttons(),
{
    let r = vec![
        GamePadButton::South,
        GamePadButton::East,
        GamePadButton::North,
        GamePadButton::West,
        GamePadButton::TL,
        GamePadButton::TR,
        GamePadButton::TL2,
        GamePadButton::TR2,
        GamePadButton::Select,
        GamePadButton::Start,
        GamePadButton::Mode,
        GamePadButton::ThumbL,
        GamePadButton::ThumbR,
    ];
    assert(r@ =~= spec_registered_buttons());
    r
}

/// The absolute axes registered on the pad with their `(min, max)` range,
/// in registration order.
pub open spec fn spec_registered_axes() -> Seq<(XboxAxis, i32, i32)> {
    seq![
        (XboxAxis::X, -32767i32, 32767i32),
        (XboxAxis::Y, -32767i32, 32767i32),
        (XboxAxis::Z, 0i32, 255i32),
        (XboxAxis::RX, -32767i32, 32767i32),
        (XboxAxis::RY, -32767i32, 32767i32),
        (XboxAxis::RZ, 0i32, 255i32),
        (XboxAxis::Hat0X, -1i32, 1i32),
        (XboxAxis::Hat0Y, -1i32, 1i32),
    ]
}

/// The absolute axes registered on the pad: sticks over `-32767..=32767`,
/// triggers over `0..=255`, hats over `-1..=1` (all with flat and fuzz 0).
pub fn registered_axes() -> (r: Vec<(XboxAxis, i32, i32)>)
    ensures
        r@ == spec_registered_axes(),
{
    let r = vec![
        (XboxAxis::X, -32767i32, 32767i32),
        (XboxAxis::Y, -32767i32, 32767i32),
        (XboxAxis::Z, 0i32, 255i32),
        (XboxAxis::RX, -32767i32, 32767i32),
        (XboxAxis::RY, -32767i32, 32767i32),
        (XboxAxis::RZ, 0i32, 255i32),
        (XboxAxis::Hat0X, -1i32, 1i32),
        (XboxAxis::Hat0Y, -1i32, 1i32),
    ];
    assert(r@ =~= spec_registered_axes());
    r
}

/// Every entry of `spec_registered_axes` for `axis` has the range
/// `[lo, hi]`, and there is one.
pub open spec fn registered_with_range(axis: XboxAxis, lo: int, hi: int) -> bool {
    &&& exists|i: int| 0 <= i < spec_registered_axes().len() && (#[trigger] spec_registered_axes()[i]).0 == axis
    &&& forall|i: int|
        0 <= i < spec_registered_axes().len() && (#[trigger] spec_registered_axes()[i]).0 == axis
            ==> spec_registered_axes()[i].1 == lo && spec_registered_axes()[i].2 == hi
}

/// Each stick and trigger axis the translation writes is registered on the
/// pad with exactly the range the translation produces: a trigger from the
/// value it reads released (at its minimum) to the value it reads fully
/// pressed (at its maximum), and a stick from its furthest reading one way
/// to its furthest reading the other way.
pub proof fn law_registered_ranges_match_outputs(s: AxisSpec, c: ControlId)
    requires
        s.min < s.max,
    ensures
        spec_xbox_trigger_code(c) is Some ==> registered_with_range(
            spec_axis_from_code(spec_xbox_trigger_code(c)->0)->0,
            trigger_value(Some(s), s.min),
            trigger_value(Some(s), s.max),
        ),
        spec_xbox_axis_code(c) is Some ==> registered_with_range(
            spec_axis_from_code(spec_xbox_axis_code(c)->0)->0,
            stick_value(None, i32::MIN, false),
            stick_value(None, i32::MAX, false),
        ),
{
    law_trigger_full_press_reads_max(s);
    let regs = spec_registered_axes();
    if spec_xbox_trigger_code(c) is Some {
        let a = spec_axis_from_code(spec_xbox_trigger_code(c)->0)->0;
        if c == ControlId::L2 {
            assert(regs[2].0 == a);
        } else {
            assert(regs[5].0 == a);
        }
    }
    if spec_xbox_axis_code(c) is Some {
        let a = spec_axis_from_code(spec_xbox_axis_code(c)->0)->0;
        if c == ControlId::LeftStickX {
            assert(regs[0].0 == a);
        } else if c == ControlId::LeftStickY {
            assert(regs[1].0 == a);
        } else if c == ControlId::RightStickX {
            assert(regs[3].0 == a);
        } else {
            assert(regs[4].0 == a);
        }
    }
}

/// The value a d-pad binding of a mapping presses its hat to.
pub open spec fn hat_value(m: MappingView, c: ControlId) -> int {
    match m.button_of(c) {
        Some(SourceView::Hat { value, .. }) => value as int,
        _ => 0,
    }
}

/// Each hat axis is registered with the range spanned by the hat values the
/// predefined layouts bind the d-pad to: the horizontal hat from the value
/// of d-pad left to that of d-pad right, the vertical hat from d-pad up to
/// d-pad down, on the hat codes those bindings read.
pub proof fn law_registered_hat_ranges_match_dpad(layout: Layout)
    requires
        layout != Layout::Custom,
    ensures
        ({
            let m = layout_view(layout);
            &&& registered_with_range(
                spec_axis_from_code(m.button_of(ControlId::DPadLeft)->0.code())->0,
                hat_value(m, ControlId::DPadLeft),
                hat_value(m, ControlId::DPadRight),
            )
            &&& registered_with_range(
                spec_axis_from_code(m.button_of(ControlId::DPadUp)->0.code())->0,
                hat_value(m, ControlId::DPadUp),
                hat_value(m, ControlId::DPadDown),
            )
            &&& m.button_of(ControlId::DPadLeft)->0.code() == m.button_of(
                ControlId::DPadRight,
            )->0.code()
            &&& m.button_of(ControlId::DPadUp)->0.code() == m.button_of(
                ControlId::DPadDown,
            )->0.code()
        }),
{
    let regs = spec_registered_axes();
    assert(regs[6].0 == XboxAxis::Hat0X);
    assert(regs[7].0 == XboxAxis::Hat0Y);
}

/// The name the pad is created under for a requested name: the request
/// without surrounding white space, or the default name when that is empty.
pub open spec fn spec_device_name(requested: Seq<char>) -> Seq<char> {
    if trimmed(requested).len() == 0 {
        "XXMapper Virtual Xbox Controller"@
    } else {
        trimmed(requested)
    }
}

/// The name the virtual pad is created under for `requested`.
pub fn virtual_device_name(requested: &str) -> (r: String)
    ensures
        r@ == spec_device_name(requested@),
{
    let t = trim_to_string(requested);
    if t.as_str().is_empty() {
        "XXMapper Virtual Xbox Controller".to_owned()
    } else {
        t
    }
}

/// The seam between the runtime loop and a virtual Xbox controller.
pub trait XboxBackend {
    /// Emit a batch of events and synchronize once.
    fn emit(&mut self, events: &[VirtualEvent]) -> Result<(), XboxError>;

    /// The name the controller was created under.
    fn device_name(&self) -> &str;
}

/// A backend that records every emitted event, for running the pipeline
/// without hardware.
pub struct RecordingBackend {
    pub events: Vec<VirtualEvent>,
    name: String,
}

impl RecordingBackend {
    /// The name this backend reports.
    pub closed spec fn spec_name(&self) -> Seq<char> {
        self.name@
    }

    /// Every event emitted so far, in order.
    pub closed spec fn recorded(&self) -> Seq<VirtualEvent> {
        self.events@
    }

    pub fn new(name: &str) -> (r: Self)
        ensures
            r.recorded() == Seq::<VirtualEvent>::empty(),
            r.spec_name() == name@,
    {
        RecordingBackend { events: Vec::new(), name: name.to_owned() }
    }
}

impl XboxBackend for RecordingBackend {
    fn emit(&mut self, events: &[VirtualEvent]) -> (r: Result<(), XboxError>)
        ensures
            r is Ok,
            final(self).recorded() == old(self).recorded() + events@,
            final(self).spec_name() == old(self).spec_name(),
    {
        let ghost start = self.events@;
        let mut i: usize = 0;
        while i < events.len()
            invariant
                i <= events.len(),
                self.events@ == start + events@.take(i as int),
                self.spec_name() == old(self).spec_name(),
                start == old(self).events@,
            decreases events.len() - i,
        {
            self.events.push(events[i]);
            assert(self.events@ =~= start + events@.take(i + 1));
            i = i + 1;
        }
        assert(events@.take(events.len() as int) =~= events@);
        Ok(())
    }

    fn device_name(&self) -> (r: &str)
        ensures
            r@ == self.spec_name(),
    {
        self.name.as_str()
    }
}

} // verus!
