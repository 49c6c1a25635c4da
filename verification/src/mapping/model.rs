//! Typed controller mapping model.
//!
//! The core mapping is never represented as fragile strings. Every Xbox
//! control is either an `AxisMapping` (stick axes, with an explicit `invert`
//! flag) or an optional `InputSource` (buttons, triggers, d-pad directions).

use vstd::prelude::*;

use crate::controllers::evdev::{abs_code_name, abs_name, key_code_name, key_name};
use crate::text::str_eq;

verus! {

/// Physical input captured from evdev.
#[derive(Debug, PartialEq, Eq, Hash)]
pub enum InputSource {
    /// A button/switch (`EV_KEY`). `code` is the raw evdev key code.
    Key { code: u16, name: String },
    /// An absolute axis (`EV_ABS`). `code` is the raw evdev axis code.
    Axis { code: u16, name: String },
    /// A hat/d-pad direction (`EV_ABS` with a direction value).
    Hat { code: u16, value: i32, name: String },
}

/// The mathematical value of an `InputSource`: its kind, code, hat value and
/// the characters of its name.
#[verifier::ext_equal]
pub enum SourceView {
    Key { code: u16, name: Seq<char> },
    Axis { code: u16, name: Seq<char> },
    Hat { code: u16, value: i32, name: Seq<char> },
}

impl SourceView {
    pub open spec fn code(self) -> u16 {
        match self {
            SourceView::Key { code, .. } => code,
            SourceView::Axis { code, .. } => code,
            SourceView::Hat { code, .. } => code,
        }
    }

    pub open spec fn name(self) -> Seq<char> {
        match self {
            SourceView::Key { name, .. } => name,
            SourceView::Axis { name, .. } => name,
            SourceView::Hat { name, .. } => name,
        }
    }
}

impl View for InputSource {
    type V = SourceView;

    open spec fn view(&self) -> SourceView {
        match self {
            InputSource::Key { code, name } => SourceView::Key { code: *code, name: name@ },
            InputSource::Axis { code, name } => SourceView::Axis { code: *code, name: name@ },
            InputSource::Hat { code, value, name } => SourceView::Hat {
                code: *code,
                value: *value,
                name: name@,
            },
        }
    }
}

/// The key source for `code`, named as `key_code_name` names it.
pub open spec fn key_source(code: u16) -> SourceView {
    SourceView::Key { code, name: key_name(code) }
}

/// The axis source for `code`, named as `abs_code_name` names it.
pub open spec fn axis_source(code: u16) -> SourceView {
    SourceView::Axis { code, name: abs_name(code) }
}

/// The hat direction source for `code` and `value`.
pub open spec fn hat_source(code: u16, value: i32) -> SourceView {
    SourceView::Hat { code, value, name: abs_name(code) }
}

impl Clone for InputSource {
    fn clone(&self) -> (r: Self)
        ensures
            r == *self,
    {
        match self {
            InputSource::Key { code, name } => InputSource::Key { code: *code, name: name.clone() },
            InputSource::Axis { code, name } => InputSource::Axis {
                code: *code,
                name: name.clone(),
            },
            InputSource::Hat { code, value, name } => InputSource::Hat {
                code: *code,
                value: *value,
                name: name.clone(),
            },
        }
    }
}

impl InputSource {
    pub fn key(code: u16) -> (r: Self)
        ensures
            r@ == key_source(code),
    {
        InputSource::Key { code, name: key_code_name(code) }
    }

    pub fn axis(code: u16) -> (r: Self)
        ensures
            r@ == axis_source(code),
    {
        InputSource::Axis { code, name: abs_code_name(code) }
    }

    pub fn hat(code: u16, value: i32) -> (r: Self)
        ensures
            r@ == hat_source(code, value),
    {
        InputSource::Hat { code, value, name: abs_code_name(code) }
    }

    /// The raw evdev code of this source.
    pub fn code(&self) -> (r: u16)
        ensures
            r == self@.code(),
    {
        match self {
            InputSource::Key { code, .. } => *code,
            InputSource::Axis { code, .. } => *code,
            InputSource::Hat { code, .. } => *code,
        }
    }

    /// Human-readable name (e.g. `BTN_SOUTH`, `ABS_Y`, `ABS_HAT0X`).
    pub fn display(&self) -> (r: String)
        ensures
            r@ == self@.name(),
    {
        match self {
            InputSource::Key { name, .. } => name.clone(),
            InputSource::Axis { name, .. } => name.clone(),
            InputSource::Hat { name, .. } => name.clone(),
        }
    }
}

/// A stick-axis mapping. `invert` is explicit: `true` means the raw value is
/// negated before scaling so that the physical direction captured during
/// mapping produces the correct Xbox direction.
#[derive(Debug, PartialEq, Eq)]
pub struct AxisMapping {
    pub source: InputSource,
    pub invert: bool,
}

/// The mathematical value of an `AxisMapping`.
#[verifier::ext_equal]
pub struct AxisView {
    pub source: SourceView,
    pub invert: bool,
}

impl View for AxisMapping {
    type V = AxisView;

    open spec fn view(&self) -> AxisView {
        AxisView { source: self.source@, invert: self.invert }
    }
}

impl Clone for AxisMapping {
    fn clone(&self) -> (r: Self)
        ensures
            r == *self,
    {
        AxisMapping { source: self.source.clone(), invert: self.invert }
    }
}

impl AxisMapping {
    pub fn new(source: InputSource, invert: bool) -> (r: Self)
        ensures
            r.source == source,
            r.invert == invert,
    {
        AxisMapping { source, invert }
    }
}

/// The predefined mapping layouts.
#[derive(Debug, Clone, Copy, PartialEq, Eq, Structural, Hash)]
pub enum Layout {
    Custom,
    Ps3,
    Ps4,
}

impl Default for Layout {
    fn default() -> (r: Self)
        ensures
            r == Layout::Custom,
    {
        Layout::Custom
    }
}

/// The label a layout is shown and selected by.
pub open spec fn layout_label(layout: Layout) -> Seq<char> {
    match layout {
        Layout::Custom => "Custom"@,
        Layout::Ps3 => "PS3"@,
        Layout::Ps4 => "PS4"@,
    }
}

/// The lower-case key the settings panel selects a layout by.
pub open spec fn layout_key(layout: Layout) -> Seq<char> {
    match layout {
        Layout::Custom => "custom"@,
        Layout::Ps3 => "ps3"@,
        Layout::Ps4 => "ps4"@,
    }
}

impl Layout {
    /// The label in lower case, as the settings panel selects it.
    pub fn key(&self) -> (r: &'static str)
        ensures
            r@ == layout_key(*self),
    {
        match self {
            Layout::Custom => "custom",
            Layout::Ps3 => "ps3",
            Layout::Ps4 => "ps4",
        }
    }

    pub fn label(&self) -> (r: &'static str)
        ensures
            r@ == layout_label(*self),
    {
        match self {
            Layout::Custom => "Custom",
            Layout::Ps3 => "PS3",
            Layout::Ps4 => "PS4",
        }
    }

    pub fn from_label(label: &str) -> (r: Option<Self>)
        ensures
            r == (if label@ == layout_label(Layout::Custom) {
                Some(Layout::Custom)
            } else if label@ == layout_label(Layout::Ps3) {
                Some(Layout::Ps3)
            } else if label@ == layout_label(Layout::Ps4) {
                Some(Layout::Ps4)
            } else {
                None
            }),
    {
        if str_eq(label, "Custom") {
            Some(Layout::Custom)
        } else if str_eq(label, "PS3") {
            Some(Layout::Ps3)
        } else if str_eq(label, "PS4") {
            Some(Layout::Ps4)
        } else {
            None
        }
    }
}

/// The kind of capture a control uses.
#[derive(Debug, Clone, Copy, PartialEq, Eq, Structural, Hash)]
pub enum ControlKind {
    /// Analog stick axis; released when back near center.
    StickAxis,
    /// Analog trigger (axis or button).
    Trigger,
    /// Momentary button.
    Button,
    /// D-pad direction (hat value or d-pad key).
    DPad,
}

/// One of the 21 Xbox controls the user can map.
#[derive(Debug, Clone, Copy, PartialEq, Eq, Structural, Hash)]
pub enum ControlId {
    LeftStickX,
    LeftStickY,
    RightStickX,
    RightStickY,
    L2,
    R2,
    DPadLeft,
    DPadRight,
    DPadUp,
    DPadDown,
    A,
    B,
    X,
    Y,
    L1,
    R1,
    Back,
    Start,
    Guide,
    L3,
    R3,
}

/// The physical direction requested while capturing a stick axis.
#[derive(Debug, Clone, Copy, PartialEq, Eq, Structural, Hash)]
pub enum StickDirection {
    Left,
    Up,
}

/// The number of controls in a complete mapping.
pub const CONTROL_COUNT: usize = 21;

/// The control at position `i` of the fixed capture order.
pub open spec fn control_at(i: int) -> ControlId {
    if i == 0 {
        ControlId::LeftStickX
    } else if i == 1 {
        ControlId::LeftStickY
    } else if i == 2 {
        ControlId::RightStickX
    } else if i == 3 {
        ControlId::RightStickY
    } else if i == 4 {
        ControlId::L2
    } else if i == 5 {
        ControlId::R2
    } else if i == 6 {
        ControlId::DPadLeft
    } else if i == 7 {
        ControlId::DPadRight
    } else if i == 8 {
        ControlId::DPadUp
    } else if i == 9 {
        ControlId::DPadDown
    } else if i == 10 {
        ControlId::A
    } else if i == 11 {
        ControlId::B
    } else if i == 12 {
        ControlId::X
    } else if i == 13 {
        ControlId::Y
    } else if i == 14 {
        ControlId::L1
    } else if i == 15 {
        ControlId::R1
    } else if i == 16 {
        ControlId::Back
    } else if i == 17 {
        ControlId::Start
    } else if i == 18 {
        ControlId::Guide
    } else if i == 19 {
        ControlId::L3
    } else {
        ControlId::R3
    }
}

/// The position of `c` in the fixed capture order.
pub open spec fn index_of(c: ControlId) -> int {
    match c {
        ControlId::LeftStickX => 0,
        ControlId::LeftStickY => 1,
        ControlId::RightStickX => 2,
        ControlId::RightStickY => 3,
        ControlId::L2 => 4,
        ControlId::R2 => 5,
        ControlId::DPadLeft => 6,
        ControlId::DPadRight => 7,
        ControlId::DPadUp => 8,
        ControlId::DPadDown => 9,
        ControlId::A => 10,
        ControlId::B => 11,
        ControlId::X => 12,
        ControlId::Y => 13,
        ControlId::L1 => 14,
        ControlId::R1 => 15,
        ControlId::Back => 16,
        ControlId::Start => 17,
        ControlId::Guide => 18,
        ControlId::L3 => 19,
        ControlId::R3 => 20,
    }
}

/// The capture order lists every control exactly once.
pub proof fn lemma_capture_order_is_bijective()
    ensures
        forall|c: ControlId| 0 <= #[trigger] index_of(c) < 21 && control_at(index_of(c)) == c,
        forall|i: int| 0 <= i < 21 ==> #[trigger] index_of(control_at(i)) == i,
{
}

/// The snake-case name of a control.
pub open spec fn control_name(c: ControlId) -> Seq<char> {
    match c {
        ControlId::LeftStickX => "left_stick_x"@,
        ControlId::LeftStickY => "left_stick_y"@,
        ControlId::RightStickX => "right_stick_x"@,
        ControlId::RightStickY => "right_stick_y"@,
        ControlId::L2 => "l2"@,
        ControlId::R2 => "r2"@,
        ControlId::DPadLeft => "dpad_left"@,
        ControlId::DPadRight => "dpad_right"@,
        ControlId::DPadUp => "dpad_up"@,
        ControlId::DPadDown => "dpad_down"@,
        ControlId::A => "a"@,
        ControlId::B => "b"@,
        ControlId::X => "x"@,
        ControlId::Y => "y"@,
        ControlId::L1 => "l1"@,
        ControlId::R1 => "r1"@,
        ControlId::Back => "back"@,
        ControlId::Start => "start"@,
        ControlId::Guide => "guide"@,
        ControlId::L3 => "l3"@,
        ControlId::R3 => "r3"@,
    }
}

/// Distinct controls have distinct names, so a name read back by
/// `ControlId::from_str` is the control that `as_str` wrote.
pub proof fn law_control_names_distinct(a: ControlId, b: ControlId)
    requires
        control_name(a) == control_name(b),
    ensures
        a == b,
{
    reveal_strlit("left_stick_x");
    reveal_strlit("left_stick_y");
    reveal_strlit("right_stick_x");
    reveal_strlit("right_stick_y");
    reveal_strlit("l2");
    reveal_strlit("r2");
    reveal_strlit("dpad_left");
    reveal_strlit("dpad_right");
    reveal_strlit("dpad_up");
    reveal_strlit("dpad_down");
    reveal_strlit("a");
    reveal_strlit("b");
    reveal_strlit("x");
    reveal_strlit("y");
    reveal_strlit("l1");
    reveal_strlit("r1");
    reveal_strlit("back");
    reveal_strlit("start");
    reveal_strlit("guide");
    reveal_strlit("l3");
    reveal_strlit("r3");
    let na = control_name(a);
    let nb = control_name(b);
    assert(na.len() == nb.len());
    assert(na[0] == nb[0]);
    assert(na[na.len() - 1] == nb[nb.len() - 1]);
}

/// The display label of a control (L1/L2/L3, R1/R2/R3 terminology).
pub open spec fn control_label(c: ControlId) -> Seq<char> {
    match c {
        ControlId::LeftStickX => "Left Stick X"@,
        ControlId::LeftStickY => "Left Stick Y"@,
        ControlId::RightStickX => "Right Stick X"@,
        ControlId::RightStickY => "Right Stick Y"@,
        ControlId::L2 => "L2"@,
        ControlId::R2 => "R2"@,
        ControlId::DPadLeft => "D-Pad Left"@,
        ControlId::DPadRight => "D-Pad Right"@,
        ControlId::DPadUp => "D-Pad Up"@,
        ControlId::DPadDown => "D-Pad Down"@,
        ControlId::A => "A"@,
        ControlId::B => "B"@,
        ControlId::X => "X"@,
        ControlId::Y => "Y"@,
        ControlId::L1 => "L1"@,
        ControlId::R1 => "R1"@,
        ControlId::Back => "Back"@,
        ControlId::Start => "Start"@,
        ControlId::Guide => "Guide"@,
        ControlId::L3 => "L3"@,
        ControlId::R3 => "R3"@,
    }
}

/// The instruction shown while a control is being captured.
pub open spec fn control_instruction(c: ControlId) -> Seq<char> {
    match c {
        ControlId::LeftStickX => "Move the LEFT STICK fully LEFT, then RELEASE it."@,
        ControlId::LeftStickY => "Move the LEFT STICK fully UP, then RELEASE it."@,
        ControlId::RightStickX => "Move the RIGHT STICK fully LEFT, then RELEASE it."@,
        ControlId::RightStickY => "Move the RIGHT STICK fully UP, then RELEASE it."@,
        ControlId::L2 => "Press L2 fully, then RELEASE it."@,
        ControlId::R2 => "Press R2 fully, then RELEASE it."@,
        ControlId::DPadLeft => "Press D-PAD LEFT, then RELEASE it."@,
        ControlId::DPadRight => "Press D-PAD RIGHT, then RELEASE it."@,
        ControlId::DPadUp => "Press D-PAD UP, then RELEASE it."@,
        ControlId::DPadDown => "Press D-PAD DOWN, then RELEASE it."@,
        ControlId::A => "Press A, then RELEASE it."@,
        ControlId::B => "Press B, then RELEASE it."@,
        ControlId::X => "Press X, then RELEASE it."@,
        ControlId::Y => "Press Y, then RELEASE it."@,
        ControlId::L1 => "Press L1, then RELEASE it."@,
        ControlId::R1 => "Press R1, then RELEASE it."@,
        ControlId::Back => "Press BACK / SELECT, then RELEASE it."@,
        ControlId::Start => "Press START, then RELEASE it."@,
        ControlId::Guide => "Press GUIDE / HOME if your controller has one, then RELEASE it."@,
        ControlId::L3 => "CLICK the LEFT STICK, then RELEASE it."@,
        ControlId::R3 => "CLICK the RIGHT STICK, then RELEASE it."@,
    }
}

/// The capture kind of a control.
pub open spec fn control_kind(c: ControlId) -> ControlKind {
    match c {
        ControlId::LeftStickX | ControlId::LeftStickY | ControlId::RightStickX
        | ControlId::RightStickY => ControlKind::StickAxis,
        ControlId::L2 | ControlId::R2 => ControlKind::Trigger,
        ControlId::DPadLeft | ControlId::DPadRight | ControlId::DPadUp
        | ControlId::DPadDown => ControlKind::DPad,
        _ => ControlKind::Button,
    }
}

/// Whether `c` is one of the four stick axes.
pub open spec fn is_stick(c: ControlId) -> bool {
    control_kind(c) == ControlKind::StickAxis
}

impl ControlId {
    pub const ALL: [ControlId; 21] = [
        ControlId::LeftStickX,
        ControlId::LeftStickY,
        ControlId::RightStickX,
        ControlId::RightStickY,
        ControlId::L2,
        ControlId::R2,
        ControlId::DPadLeft,
        ControlId::DPadRight,
        ControlId::DPadUp,
        ControlId::DPadDown,
        ControlId::A,
        ControlId::B,
        ControlId::X,
        ControlId::Y,
        ControlId::L1,
        ControlId::R1,
        ControlId::Back,
        ControlId::Start,
        ControlId::Guide,
        ControlId::L3,
        ControlId::R3,
    ];

    /// The control at position `index` of the capture order, if any.
    pub fn at(index: usize) -> (r: Option<ControlId>)
        ensures
            r == (if index < 21 {
                Some(control_at(index as int))
            } else {
                None
            }),
    {
        match index {
            0 => Some(ControlId::LeftStickX),
            1 => Some(ControlId::LeftStickY),
            2 => Some(ControlId::RightStickX),
            3 => Some(ControlId::RightStickY),
            4 => Some(ControlId::L2),
            5 => Some(ControlId::R2),
            6 => Some(ControlId::DPadLeft),
            7 => Some(ControlId::DPadRight),
            8 => Some(ControlId::DPadUp),
            9 => Some(ControlId::DPadDown),
            10 => Some(ControlId::A),
            11 => Some(ControlId::B),
            12 => Some(ControlId::X),
            13 => Some(ControlId::Y),
            14 => Some(ControlId::L1),
            15 => Some(ControlId::R1),
            16 => Some(ControlId::Back),
            17 => Some(ControlId::Start),
            18 => Some(ControlId::Guide),
            19 => Some(ControlId::L3),
            20 => Some(ControlId::R3),
            _ => None,
        }
    }

    /// The position of this control in the capture order.
    pub fn position(&self) -> (r: usize)
        ensures
            r == index_of(*self),
    {
        match self {
            ControlId::LeftStickX => 0,
            ControlId::LeftStickY => 1,
            ControlId::RightStickX => 2,
            ControlId::RightStickY => 3,
            ControlId::L2 => 4,
            ControlId::R2 => 5,
            ControlId::DPadLeft => 6,
            ControlId::DPadRight => 7,
            ControlId::DPadUp => 8,
            ControlId::DPadDown => 9,
            ControlId::A => 10,
            ControlId::B => 11,
            ControlId::X => 12,
            ControlId::Y => 13,
            ControlId::L1 => 14,
            ControlId::R1 => 15,
            ControlId::Back => 16,
            ControlId::Start => 17,
            ControlId::Guide => 18,
            ControlId::L3 => 19,
            ControlId::R3 => 20,
        }
    }

    pub fn as_str(&self) -> (r: &'static str)
        ensures
            r@ == control_name(*self),
    {
        match self {
            ControlId::LeftStickX => "left_stick_x",
            ControlId::LeftStickY => "left_stick_y",
            ControlId::RightStickX => "right_stick_x",
            ControlId::RightStickY => "right_stick_y",
            ControlId::L2 => "l2",
            ControlId::R2 => "r2",
            ControlId::DPadLeft => "dpad_left",
            ControlId::DPadRight => "dpad_right",
            ControlId::DPadUp => "dpad_up",
            ControlId::DPadDown => "dpad_down",
            ControlId::A => "a",
            ControlId::B => "b",
            ControlId::X => "x",
            ControlId::Y => "y",
            ControlId::L1 => "l1",
            ControlId::R1 => "r1",
            ControlId::Back => "back",
            ControlId::Start => "start",
            ControlId::Guide => "guide",
            ControlId::L3 => "l3",
            ControlId::R3 => "r3",
        }
    }

    /// The first control, in capture order, whose name is `value`.
    pub fn from_str(value: &str) -> (r: Option<Self>)
        ensures
            match r {
                Some(c) => control_name(c) == value@ && forall|j: int|
                    0 <= j < index_of(c) ==> control_name(#[trigger] control_at(j)) != value@,
                None => forall|c: ControlId| control_name(c) != value@,
            },
            forall|c: ControlId| control_name(c) == value@ ==> r == Some(c),
    {
        proof {
            lemma_capture_order_is_bijective();
        }
        let mut i: usize = 0;
        while i < 21
            invariant
                i <= 21,
                forall|j: int| 0 <= j < i ==> control_name(#[trigger] control_at(j)) != value@,
            decreases 21 - i,
        {
            let c = ControlId::at(i).unwrap();
            if str_eq(c.as_str(), value) {
                proof {
                    assert forall|d: ControlId| control_name(d) == value@ implies Some(c) == Some(
                        d,
                    ) by {
                        law_control_names_distinct(c, d);
                    }
                }
                return Some(c);
            }
            i = i + 1;
        }
        proof {
            assert forall|c: ControlId| control_name(c) != value@ by {
                assert(control_at(index_of(c)) == c);
            }
        }
        None
    }

    /// Display label using L1/L2/L3, R1/R2/R3 terminology.
    pub fn label(&self) -> (r: &'static str)
        ensures
            r@ == control_label(*self),
    {
        match self {
            ControlId::LeftStickX => "Left Stick X",
            ControlId::LeftStickY => "Left Stick Y",
            ControlId::RightStickX => "Right Stick X",
            ControlId::RightStickY => "Right Stick Y",
            ControlId::L2 => "L2",
            ControlId::R2 => "R2",
            ControlId::DPadLeft => "D-Pad Left",
            ControlId::DPadRight => "D-Pad Right",
            ControlId::DPadUp => "D-Pad Up",
            ControlId::DPadDown => "D-Pad Down",
            ControlId::A => "A",
            ControlId::B => "B",
            ControlId::X => "X",
            ControlId::Y => "Y",
            ControlId::L1 => "L1",
            ControlId::R1 => "R1",
            ControlId::Back => "Back",
            ControlId::Start => "Start",
            ControlId::Guide => "Guide",
            ControlId::L3 => "L3",
            ControlId::R3 => "R3",
        }
    }

    pub fn kind(&self) -> (r: ControlKind)
        ensures
            r == control_kind(*self),
    {
        match self {
            ControlId::LeftStickX | ControlId::LeftStickY | ControlId::RightStickX
            | ControlId::RightStickY => ControlKind::StickAxis,
            ControlId::L2 | ControlId::R2 => ControlKind::Trigger,
            ControlId::DPadLeft | ControlId::DPadRight | ControlId::DPadUp
            | ControlId::DPadDown => ControlKind::DPad,
            _ => ControlKind::Button,
        }
    }

    /// Direction the user is told to move for a stick axis. Left for X axes,
    /// Up for Y axes.
    pub fn stick_direction(&self) -> (r: Option<StickDirection>)
        ensures
            r == (match *self {
                ControlId::LeftStickX | ControlId::RightStickX => Some(StickDirection::Left),
                ControlId::LeftStickY | ControlId::RightStickY => Some(StickDirection::Up),
                _ => None,
            }),
    {
        match self {
            ControlId::LeftStickX | ControlId::RightStickX => Some(StickDirection::Left),
            ControlId::LeftStickY | ControlId::RightStickY => Some(StickDirection::Up),
            _ => None,
        }
    }

    pub fn instruction(&self) -> (r: &'static str)
        ensures
            r@ == control_instruction(*self),
    {
        match self {
            ControlId::LeftStickX => "Move the LEFT STICK fully LEFT, then RELEASE it.",
            ControlId::LeftStickY => "Move the LEFT STICK fully UP, then RELEASE it.",
            ControlId::RightStickX => "Move the RIGHT STICK fully LEFT, then RELEASE it.",
            ControlId::RightStickY => "Move the RIGHT STICK fully UP, then RELEASE it.",
            ControlId::L2 => "Press L2 fully, then RELEASE it.",
            ControlId::R2 => "Press R2 fully, then RELEASE it.",
            ControlId::DPadLeft => "Press D-PAD LEFT, then RELEASE it.",
            ControlId::DPadRight => "Press D-PAD RIGHT, then RELEASE it.",
            ControlId::DPadUp => "Press D-PAD UP, then RELEASE it.",
            ControlId::DPadDown => "Press D-PAD DOWN, then RELEASE it.",
            ControlId::A => "Press A, then RELEASE it.",
            ControlId::B => "Press B, then RELEASE it.",
            ControlId::X => "Press X, then RELEASE it.",
            ControlId::Y => "Press Y, then RELEASE it.",
            ControlId::L1 => "Press L1, then RELEASE it.",
            ControlId::R1 => "Press R1, then RELEASE it.",
            ControlId::Back => "Press BACK / SELECT, then RELEASE it.",
            ControlId::Start => "Press START, then RELEASE it.",
            ControlId::Guide => "Press GUIDE / HOME if your controller has one, then RELEASE it.",
            ControlId::L3 => "CLICK the LEFT STICK, then RELEASE it.",
            ControlId::R3 => "CLICK the RIGHT STICK, then RELEASE it.",
        }
    }
}

} // verus!

verus! {

/// The mathematical value of a `ControllerMapping`: one optional binding per
/// control.
#[verifier::ext_equal]
pub struct MappingView {
    pub left_stick_x: Option<AxisView>,
    pub left_stick_y: Option<AxisView>,
    pub right_stick_x: Option<AxisView>,
    pub right_stick_y: Option<AxisView>,
    pub l2: Option<SourceView>,
    pub r2: Option<SourceView>,
    pub dpad_left: Option<SourceView>,
    pub dpad_right: Option<SourceView>,
    pub dpad_up: Option<SourceView>,
    pub dpad_down: Option<SourceView>,
    pub a: Option<SourceView>,
    pub b: Option<SourceView>,
    pub x: Option<SourceView>,
    pub y: Option<SourceView>,
    pub l1: Option<SourceView>,
    pub r1: Option<SourceView>,
    pub back: Option<SourceView>,
    pub start: Option<SourceView>,
    pub guide: Option<SourceView>,
    pub l3: Option<SourceView>,
    pub r3: Option<SourceView>,
}

/// The view of an optional source.
pub open spec fn opt_source_view(o: Option<InputSource>) -> Option<SourceView> {
    match o {
        Some(s) => Some(s@),
        None => None,
    }
}

/// The view of an optional axis mapping.
pub open spec fn opt_axis_view(o: Option<AxisMapping>) -> Option<AxisView> {
    match o {
        Some(a) => Some(a@),
        None => None,
    }
}

impl MappingView {
    /// The mapping with no control assigned.
    pub open spec fn empty() -> MappingView {
        MappingView {
            left_stick_x: None,
            left_stick_y: None,
            right_stick_x: None,
            right_stick_y: None,
            l2: None,
            r2: None,
            dpad_left: None,
            dpad_right: None,
            dpad_up: None,
            dpad_down: None,
            a: None,
            b: None,
            x: None,
            y: None,
            l1: None,
            r1: None,
            back: None,
            start: None,
            guide: None,
            l3: None,
            r3: None,
        }
    }

    /// The axis binding of a stick control (`None` for every other control).
    pub open spec fn axis_of(self, id: ControlId) -> Option<AxisView> {
        match id {
            ControlId::LeftStickX => self.left_stick_x,
            ControlId::LeftStickY => self.left_stick_y,
            ControlId::RightStickX => self.right_stick_x,
            ControlId::RightStickY => self.right_stick_y,
            _ => None,
        }
    }

    /// The source bound to a non-stick control (`None` for stick controls).
    pub open spec fn button_of(self, id: ControlId) -> Option<SourceView> {
        match id {
            ControlId::L2 => self.l2,
            ControlId::R2 => self.r2,
            ControlId::DPadLeft => self.dpad_left,
            ControlId::DPadRight => self.dpad_right,
            ControlId::DPadUp => self.dpad_up,
            ControlId::DPadDown => self.dpad_down,
            ControlId::A => self.a,
            ControlId::B => self.b,
            ControlId::X => self.x,
            ControlId::Y => self.y,
            ControlId::L1 => self.l1,
            ControlId::R1 => self.r1,
            ControlId::Back => self.back,
            ControlId::Start => self.start,
            ControlId::Guide => self.guide,
            ControlId::L3 => self.l3,
            ControlId::R3 => self.r3,
            _ => None,
        }
    }

    /// This mapping with the axis binding of `id` replaced; unchanged when
    /// `id` is not a stick control.
    pub open spec fn with_axis(self, id: ControlId, v: Option<AxisView>) -> MappingView {
        match id {
            ControlId::LeftStickX => MappingView { left_stick_x: v, ..self },
            ControlId::LeftStickY => MappingView { left_stick_y: v, ..self },
            ControlId::RightStickX => MappingView { right_stick_x: v, ..self },
            ControlId::RightStickY => MappingView { right_stick_y: v, ..self },
            _ => self,
        }
    }

    /// This mapping with the source of `id` replaced; unchanged when `id` is
    /// a stick control.
    pub open spec fn with_button(self, id: ControlId, v: Option<SourceView>) -> MappingView {
        match id {
            ControlId::L2 => MappingView { l2: v, ..self },
            ControlId::R2 => MappingView { r2: v, ..self },
            ControlId::DPadLeft => MappingView { dpad_left: v, ..self },
            ControlId::DPadRight => MappingView { dpad_right: v, ..self },
            ControlId::DPadUp => MappingView { dpad_up: v, ..self },
            ControlId::DPadDown => MappingView { dpad_down: v, ..self },
            ControlId::A => MappingView { a: v, ..self },
            ControlId::B => MappingView { b: v, ..self },
            ControlId::X => MappingView { x: v, ..self },
            ControlId::Y => MappingView { y: v, ..self },
            ControlId::L1 => MappingView { l1: v, ..self },
            ControlId::R1 => MappingView { r1: v, ..self },
            ControlId::Back => MappingView { back: v, ..self },
            ControlId::Start => MappingView { start: v, ..self },
            ControlId::Guide => MappingView { guide: v, ..self },
            ControlId::L3 => MappingView { l3: v, ..self },
            ControlId::R3 => MappingView { r3: v, ..self },
            _ => self,
        }
    }

    /// Whether `id` has a binding of the kind it takes.
    pub open spec fn is_mapped(self, id: ControlId) -> bool {
        if is_stick(id) {
            self.axis_of(id) is Some
        } else {
            self.button_of(id) is Some
        }
    }

    /// Whether every one of the 21 controls has a binding.
    pub open spec fn is_complete(self) -> bool {
        forall|c: ControlId| #[trigger] self.is_mapped(c)
    }
}

/// The complete mapping of one physical controller to an Xbox controller.
#[derive(Debug, PartialEq)]
pub struct ControllerMapping {
    pub left_stick_x: Option<AxisMapping>,
    pub left_stick_y: Option<AxisMapping>,
    pub right_stick_x: Option<AxisMapping>,
    pub right_stick_y: Option<AxisMapping>,

    pub l2: Option<InputSource>,
    pub r2: Option<InputSource>,
    pub dpad_left: Option<InputSource>,
    pub dpad_right: Option<InputSource>,
    pub dpad_up: Option<InputSource>,
    pub dpad_down: Option<InputSource>,
    pub a: Option<InputSource>,
    pub b: Option<InputSource>,
    pub x: Option<InputSource>,
    pub y: Option<InputSource>,
    pub l1: Option<InputSource>,
    pub r1: Option<InputSource>,
    pub back: Option<InputSource>,
    pub start: Option<InputSource>,
    pub guide: Option<InputSource>,
    pub l3: Option<InputSource>,
    pub r3: Option<InputSource>,
}

impl View for ControllerMapping {
    type V = MappingView;

    open spec fn view(&self) -> MappingView {
        MappingView {
            left_stick_x: opt_axis_view(self.left_stick_x),
            left_stick_y: opt_axis_view(self.left_stick_y),
            right_stick_x: opt_axis_view(self.right_stick_x),
            right_stick_y: opt_axis_view(self.right_stick_y),
            l2: opt_source_view(self.l2),
            r2: opt_source_view(self.r2),
            dpad_left: opt_source_view(self.dpad_left),
            dpad_right: opt_source_view(self.dpad_right),
            dpad_up: opt_source_view(self.dpad_up),
            dpad_down: opt_source_view(self.dpad_down),
            a: opt_source_view(self.a),
            b: opt_source_view(self.b),
            x: opt_source_view(self.x),
            y: opt_source_view(self.y),
            l1: opt_source_view(self.l1),
            r1: opt_source_view(self.r1),
            back: opt_source_view(self.back),
            start: opt_source_view(self.start),
            guide: opt_source_view(self.guide),
            l3: opt_source_view(self.l3),
            r3: opt_source_view(self.r3),
        }
    }
}

fn clone_source(o: &Option<InputSource>) -> (r: Option<InputSource>)
    ensures
        r == *o,
{
    match o {
        Some(s) => Some(s.clone()),
        None => None,
    }
}

fn clone_axis(o: &Option<AxisMapping>) -> (r: Option<AxisMapping>)
    ensures
        r == *o,
{
    match o {
        Some(a) => Some(a.clone()),
        None => None,
    }
}

impl Clone for ControllerMapping {
    fn clone(&self) -> (r: Self)
        ensures
            r == *self,
    {
        ControllerMapping {
            left_stick_x: clone_axis(&self.left_stick_x),
            left_stick_y: clone_axis(&self.left_stick_y),
            right_stick_x: clone_axis(&self.right_stick_x),
            right_stick_y: clone_axis(&self.right_stick_y),
            l2: clone_source(&self.l2),
            r2: clone_source(&self.r2),
            dpad_left: clone_source(&self.dpad_left),
            dpad_right: clone_source(&self.dpad_right),
            dpad_up: clone_source(&self.dpad_up),
            dpad_down: clone_source(&self.dpad_down),
            a: clone_source(&self.a),
            b: clone_source(&self.b),
            x: clone_source(&self.x),
            y: clone_source(&self.y),
            l1: clone_source(&self.l1),
            r1: clone_source(&self.r1),
            back: clone_source(&self.back),
            start: clone_source(&self.start),
            guide: clone_source(&self.guide),
            l3: clone_source(&self.l3),
            r3: clone_source(&self.r3),
        }
    }
}

impl Default for ControllerMapping {
    fn default() -> (r: Self)
        ensures
            r@ == MappingView::empty(),
    {
        ControllerMapping {
            left_stick_x: None,
            left_stick_y: None,
            right_stick_x: None,
            right_stick_y: None,
            l2: None,
            r2: None,
            dpad_left: None,
            dpad_right: None,
            dpad_up: None,
            dpad_down: None,
            a: None,
            b: None,
            x: None,
            y: None,
            l1: None,
            r1: None,
            back: None,
            start: None,
            guide: None,
            l3: None,
            r3: None,
        }
    }
}

/// The summary line of one control's assignment.
pub open spec fn summary_text(m: MappingView, id: ControlId) -> Seq<char> {
    if is_stick(id) {
        match m.axis_of(id) {
            Some(axis) => axis.source.name() + (if axis.invert {
                " (inverted)"@
            } else {
                ""@
            }),
            None => "not mapped"@,
        }
    } else {
        match m.button_of(id) {
            Some(source) => source.name(),
            None => "not mapped"@,
        }
    }
}

impl ControllerMapping {
    /// Whether `id` refers to a stick axis.
    pub fn is_axis(id: ControlId) -> (r: bool)
        ensures
            r == is_stick(id),
    {
        match id {
            ControlId::LeftStickX | ControlId::LeftStickY | ControlId::RightStickX
            | ControlId::RightStickY => true,
            _ => false,
        }
    }

    pub fn axis_mapping(&self, id: ControlId) -> (r: Option<&AxisMapping>)
        ensures
            match r {
                Some(a) => self@.axis_of(id) == Some(a@),
                None => self@.axis_of(id) is None,
            },
    {
        match id {
            ControlId::LeftStickX => self.left_stick_x.as_ref(),
            ControlId::LeftStickY => self.left_stick_y.as_ref(),
            ControlId::RightStickX => self.right_stick_x.as_ref(),
            ControlId::RightStickY => self.right_stick_y.as_ref(),
            _ => None,
        }
    }

    pub fn set_axis(&mut self, id: ControlId, value: Option<AxisMapping>)
        ensures
            final(self)@ == old(self)@.with_axis(id, opt_axis_view(value)),
        no_unwind
    {
        match id {
            ControlId::LeftStickX => self.left_stick_x = value,
            ControlId::LeftStickY => self.left_stick_y = value,
            ControlId::RightStickX => self.right_stick_x = value,
            ControlId::RightStickY => self.right_stick_y = value,
            _ => {},
        }
    }

    /// The mapped `InputSource` for a non-axis control, if any.
    pub fn button_source(&self, id: ControlId) -> (r: Option<InputSource>)
        ensures
            opt_source_view(r) == self@.button_of(id),
    {
        match id {
            ControlId::L2 => clone_source(&self.l2),
            ControlId::R2 => clone_source(&self.r2),
            ControlId::DPadLeft => clone_source(&self.dpad_left),
            ControlId::DPadRight => clone_source(&self.dpad_right),
            ControlId::DPadUp => clone_source(&self.dpad_up),
            ControlId::DPadDown => clone_source(&self.dpad_down),
            ControlId::A => clone_source(&self.a),
            ControlId::B => clone_source(&self.b),
            ControlId::X => clone_source(&self.x),
            ControlId::Y => clone_source(&self.y),
            ControlId::L1 => clone_source(&self.l1),
            ControlId::R1 => clone_source(&self.r1),
            ControlId::Back => clone_source(&self.back),
            ControlId::Start => clone_source(&self.start),
            ControlId::Guide => clone_source(&self.guide),
            ControlId::L3 => clone_source(&self.l3),
            ControlId::R3 => clone_source(&self.r3),
            _ => None,
        }
    }

    pub fn set_button(&mut self, id: ControlId, value: Option<InputSource>)
        ensures
            final(self)@ == old(self)@.with_button(id, opt_source_view(value)),
        no_unwind
    {
        match id {
            ControlId::L2 => self.l2 = value,
            ControlId::R2 => self.r2 = value,
            ControlId::DPadLeft => self.dpad_left = value,
            ControlId::DPadRight => self.dpad_right = value,
            ControlId::DPadUp => self.dpad_up = value,
            ControlId::DPadDown => self.dpad_down = value,
            ControlId::A => self.a = value,
            ControlId::B => self.b = value,
            ControlId::X => self.x = value,
            ControlId::Y => self.y = value,
            ControlId::L1 => self.l1 = value,
            ControlId::R1 => self.r1 = value,
            ControlId::Back => self.back = value,
            ControlId::Start => self.start = value,
            ControlId::Guide => self.guide = value,
            ControlId::L3 => self.l3 = value,
            ControlId::R3 => self.r3 = value,
            _ => {},
        }
    }

    /// Whether every one of the 21 controls has a source assigned.
    pub fn is_complete(&self) -> (r: bool)
        ensures
            r == self@.is_complete(),
    {
        proof {
            lemma_capture_order_is_bijective();
        }
        let mut i: usize = 0;
        while i < 21
            invariant
                i <= 21,
                forall|j: int| 0 <= j < i ==> self@.is_mapped(#[trigger] control_at(j)),
            decreases 21 - i,
        {
            let control = ControlId::at(i).unwrap();
            let present = if Self::is_axis(control) {
                self.axis_mapping(control).is_some()
            } else {
                self.button_source(control).is_some()
            };
            if !present {
                assert(!self@.is_mapped(control));
                return false;
            }
            i = i + 1;
        }
        proof {
            assert forall|c: ControlId| #[trigger] self@.is_mapped(c) by {
                assert(control_at(index_of(c)) == c);
            }
        }
        true
    }

    /// Human-readable summary of one control's assignment.
    pub fn summary(&self, id: ControlId) -> (r: String)
        ensures
            r@ == summary_text(self@, id),
    {
        if Self::is_axis(id) {
            match self.axis_mapping(id) {
                Some(axis) => {
                    let mut text = axis.source.display();
                    if axis.invert {
                        text.append(" (inverted)");
                    } else {
                        text.append("");
                    }
                    text
                },
                None => "not mapped".to_owned(),
            }
        } else {
            match self.button_source(id) {
                Some(source) => source.display(),
                None => "not mapped".to_owned(),
            }
        }
    }
}

} // verus!
