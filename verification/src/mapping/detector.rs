//! Mapping capture state machine (press/release detection).
//!
//! The detector walks the 21 controls in a fixed order. For each control it
//! waits for the physical press described by `ControlId::instruction`, then
//! requires the press to be released before the capture is committed and the
//! next control is offered. Skipping is a separate command (`skip_current`)
//! and never captures.
//!
//! Axis handling is explicit: stick axes capture a peak value while held and
//! record `invert = peak > 0` so a reversed physical axis produces the correct
//! Xbox direction at runtime. Triggers and d-pads are stored as plain
//! `InputSource`s and never inverted.

use std::collections::HashMap;

use vstd::prelude::*;

use crate::controllers::evdev::{abs, abs_safe_i32, AxisSpec, InputEvent, EV_ABS, EV_KEY};
use crate::mapping::model::{
    axis_source, control_at, control_instruction, control_kind, control_label, hat_source,
    index_of, is_stick, key_source, AxisMapping, AxisView, ControlId, ControlKind,
    ControllerMapping, InputSource, MappingView,
};

verus! {

broadcast use vstd::std_specs::hash::group_hash_axioms;

/// What the detector currently holds pressed.
#[derive(Debug, Clone, Copy, PartialEq, Eq, Structural)]
pub enum Capture {
    Key { code: u16 },
    Axis { code: u16, peak: i32, trigger: bool },
    Hat { code: u16, value: i32 },
}

/// The events the detector reports back to the caller.
#[derive(Debug, Clone, Copy, PartialEq, Eq, Structural)]
pub enum DetectorUpdate {
    /// A physical press was detected on `control`; a release is now required.
    Pressed { control: ControlId },
    /// `control` was successfully captured after its press was released.
    Captured { control: ControlId },
    /// The last control of the session was captured.
    Finished,
}

/// The abstract state of a capture session: the mapping built so far, the
/// position in the capture order (21 once finished) and the held press.
pub struct DetectorState {
    pub mapping: MappingView,
    pub index: nat,
    pub pressed: Option<Capture>,
}

/// Whether an axis value counts as pressed, relative to its resting position.
///
/// Sticks rest at `center` (usually 0); analog triggers rest at `min` (0 on
/// the common 0..255 range) and only read high while actually pressed.
pub open spec fn spec_moved_from_rest(spec: AxisSpec, value: i32, trigger: bool) -> bool {
    if trigger {
        abs(value - spec.min) > spec.deadzone
    } else {
        !spec.spec_is_center(value as int)
    }
}

/// Whether an axis value counts as back at rest.
pub open spec fn spec_released_from_rest(spec: AxisSpec, value: i32, trigger: bool) -> bool {
    if trigger {
        abs(value - spec.min) <= spec.deadzone
    } else {
        spec.spec_is_center(value as int)
    }
}

/// The rest tests on `value` stay within `i32` arithmetic.
pub open spec fn rest_test_safe(spec: AxisSpec, value: i32, trigger: bool) -> bool {
    if trigger {
        spec.min_safe(value as int)
    } else {
        spec.center_safe(value as int)
    }
}

/// The press that `event` starts for `control`, if any.
pub open spec fn spec_detect_press(
    specs: Map<u16, AxisSpec>,
    control: ControlId,
    event: InputEvent,
) -> Option<Capture> {
    match control_kind(control) {
        ControlKind::Button => if event.type_ == EV_KEY && event.value == 1 {
            Some(Capture::Key { code: event.code })
        } else {
            None
        },
        ControlKind::DPad => if event.type_ == EV_ABS && (event.code == 16 || event.code == 17)
            && event.value != 0 {
            Some(Capture::Hat { code: event.code, value: event.value })
        } else {
            None
        },
        _ => {
            let trigger = control_kind(control) == ControlKind::Trigger;
            if trigger && event.type_ == EV_KEY && event.value == 1 {
                Some(Capture::Key { code: event.code })
            } else if event.type_ == EV_ABS && event.code <= 5 {
                if specs.contains_key(event.code) {
                    if spec_moved_from_rest(specs[event.code], event.value, trigger) {
                        Some(Capture::Axis { code: event.code, peak: event.value, trigger })
                    } else {
                        None
                    }
                } else if event.value != 0 {
                    Some(Capture::Axis { code: event.code, peak: event.value, trigger })
                } else {
                    None
                }
            } else {
                None
            }
        },
    }
}

/// Press detection for `control` on `event` stays within `i32` arithmetic.
pub open spec fn detect_safe(specs: Map<u16, AxisSpec>, control: ControlId, event: InputEvent) -> bool {
    let kind = control_kind(control);
    (kind == ControlKind::StickAxis || kind == ControlKind::Trigger) && event.type_ == EV_ABS
        && event.code <= 5 && specs.contains_key(event.code) ==> rest_test_safe(
        specs[event.code],
        event.value,
        kind == ControlKind::Trigger,
    )
}

/// Whether `event` releases the held `pressed` capture.
pub open spec fn spec_is_release(
    specs: Map<u16, AxisSpec>,
    pressed: Capture,
    event: InputEvent,
) -> bool {
    match pressed {
        Capture::Key { code } => event.type_ == EV_KEY && event.code == code && event.value == 0,
        Capture::Hat { code, .. } => event.type_ == EV_ABS && event.code == code && event.value
            == 0,
        Capture::Axis { code, trigger, .. } => if event.type_ == EV_ABS && event.code == code {
            if specs.contains_key(code) {
                spec_released_from_rest(specs[code], event.value, trigger)
            } else {
                true
            }
        } else {
            false
        },
    }
}

/// Release detection and peak tracking on `event` stay within `i32`
/// arithmetic.
pub open spec fn hold_safe(specs: Map<u16, AxisSpec>, pressed: Capture, event: InputEvent) -> bool {
    match pressed {
        Capture::Axis { code, peak, trigger } => event.type_ == EV_ABS && event.code == code
            && specs.contains_key(code) ==> {
            &&& rest_test_safe(specs[code], event.value, trigger)
            &&& (!spec_released_from_rest(specs[code], event.value, trigger) ==> abs_safe_i32(
                event.value as int,
            ) && abs_safe_i32(peak as int))
        },
        _ => true,
    }
}

/// The mapping after a completed capture of `control` is stored.
pub open spec fn spec_commit(m: MappingView, control: ControlId, capture: Capture) -> MappingView {
    match capture {
        Capture::Key { code } => m.with_button(control, Some(key_source(code))),
        Capture::Hat { code, value } => m.with_button(control, Some(hat_source(code, value))),
        Capture::Axis { code, peak, trigger } => if !trigger {
            m.with_axis(control, Some(AxisView { source: axis_source(code), invert: peak > 0 }))
        } else {
            m.with_button(control, Some(axis_source(code)))
        },
    }
}

/// One event fed to the session: the next state and the updates reported.
pub open spec fn step(specs: Map<u16, AxisSpec>, s: DetectorState, event: InputEvent) -> (
    DetectorState,
    Seq<DetectorUpdate>,
) {
    if s.index >= 21 {
        (s, seq![])
    } else {
        let control = control_at(s.index as int);
        match s.pressed {
            None => match spec_detect_press(specs, control, event) {
                Some(capture) => (
                    DetectorState { pressed: Some(capture), ..s },
                    seq![DetectorUpdate::Pressed { control }],
                ),
                None => (s, seq![]),
            },
            Some(capture) => if spec_is_release(specs, capture, event) {
                let next = DetectorState {
                    mapping: spec_commit(s.mapping, control, capture),
                    index: s.index + 1,
                    pressed: None,
                };
                if s.index + 1 >= 21 {
                    (next, seq![DetectorUpdate::Captured { control }, DetectorUpdate::Finished])
                } else {
                    (next, seq![DetectorUpdate::Captured { control }])
                }
            } else {
                match capture {
                    Capture::Axis { code, peak, trigger } => if event.type_ == EV_ABS && event.code
                        == code && abs(event.value as int) > abs(peak as int) {
                        (
                            DetectorState {
                                pressed: Some(Capture::Axis { code, peak: event.value, trigger }),
                                ..s
                            },
                            seq![],
                        )
                    } else {
                        (s, seq![])
                    },
                    _ => (s, seq![]),
                }
            },
        }
    }
}

/// Feeding `event` in state `s` stays within `i32` arithmetic.
pub open spec fn step_safe(specs: Map<u16, AxisSpec>, s: DetectorState, event: InputEvent) -> bool {
    s.index < 21 ==> match s.pressed {
        None => detect_safe(specs, control_at(s.index as int), event),
        Some(capture) => hold_safe(specs, capture, event),
    }
}

/// A batch of events fed in order: the final state and all updates.
pub open spec fn run(specs: Map<u16, AxisSpec>, s: DetectorState, events: Seq<InputEvent>) -> (
    DetectorState,
    Seq<DetectorUpdate>,
)
    decreases events.len(),
{
    if events.len() == 0 {
        (s, seq![])
    } else {
        let before = run(specs, s, events.drop_last());
        let after = step(specs, before.0, events.last());
        (after.0, before.1 + after.1)
    }
}

/// Every event of the batch is fed within `i32` arithmetic.
pub open spec fn run_safe(specs: Map<u16, AxisSpec>, s: DetectorState, events: Seq<InputEvent>) -> bool
    decreases events.len(),
{
    events.len() == 0 || (run_safe(specs, s, events.drop_last()) && step_safe(
        specs,
        run(specs, s, events.drop_last()).0,
        events.last(),
    ))
}

/// A prefix of a safe batch is safe.
pub proof fn lemma_run_safe_prefix(
    specs: Map<u16, AxisSpec>,
    s: DetectorState,
    events: Seq<InputEvent>,
    k: int,
)
    requires
        run_safe(specs, s, events),
        0 <= k <= events.len(),
    ensures
        run_safe(specs, s, events.take(k)),
    decreases events.len(),
{
    if k < events.len() {
        assert(events.drop_last().take(k) =~= events.take(k));
        lemma_run_safe_prefix(specs, s, events.drop_last(), k);
    } else {
        assert(events.take(k) =~= events);
    }
}

/// The status shown while a press on `control` is held.
pub open spec fn held_line(control: ControlId) -> Seq<char> {
    "Held: "@ + control_label(control) + " \u{2014} now RELEASE the control to capture it."@
}

/// The status text shown while a press on `control` is held.
pub fn held_status(control: ControlId) -> (r: String)
    ensures
        r@ == held_line(control),
{
    let mut text = "Held: ".to_owned();
    text.append(control.label());
    text.append(" \u{2014} now RELEASE the control to capture it.");
    text
}

/// Press/release state machine for one manual mapping session.
#[derive(Debug)]
pub struct MappingDetector {
    mapping: ControllerMapping,
    index: usize,
    pressed: Option<Capture>,
    axis_specs: HashMap<u16, AxisSpec>,
}

impl MappingDetector {
    #[verifier::type_invariant]
    spec fn index_in_range(self) -> bool {
        self.index <= 21
    }

    /// The abstract state of the session.
    pub closed spec fn state(&self) -> DetectorState {
        DetectorState { mapping: self.mapping@, index: self.index as nat, pressed: self.pressed }
    }

    /// The axis metadata in use, keyed by evdev axis code.
    pub closed spec fn specs(&self) -> Map<u16, AxisSpec> {
        self.axis_specs@
    }

    /// Start a session, continuing from an existing mapping.
    pub fn new(mapping: ControllerMapping) -> (r: Self)
        ensures
            r.state() == (DetectorState { mapping: mapping@, index: 0, pressed: None }),
            r.specs() == Map::<u16, AxisSpec>::empty(),
    {
        MappingDetector { mapping, index: 0, pressed: None, axis_specs: HashMap::new() }
    }

    /// Provide the axis metadata used to decide when an axis is pressed or
    /// released. Called once with the capabilities of the physical device.
    pub fn set_axis_specs(&mut self, specs: HashMap<u16, AxisSpec>)
        ensures
            final(self).state() == old(self).state(),
            final(self).specs() == specs@,
    {
        proof {
            use_type_invariant(&*self);
        }
        self.axis_specs = specs;
    }

    /// The control currently being captured, if the session is still running.
    pub fn current(&self) -> (r: Option<ControlId>)
        ensures
            r == (if self.state().index < 21 {
                Some(control_at(self.state().index as int))
            } else {
                None
            }),
    {
        ControlId::at(self.index)
    }

    /// True once every control has been captured (or skipped) and the session
    /// is complete.
    pub fn is_finished(&self) -> (r: bool)
        ensures
            r == (self.state().index >= 21),
    {
        self.index >= 21
    }

    pub fn mapping(&self) -> (r: &ControllerMapping)
        ensures
            r@ == self.state().mapping,
    {
        &self.mapping
    }

    pub fn mapping_owned(&self) -> (r: ControllerMapping)
        ensures
            r@ == self.state().mapping,
    {
        self.mapping.clone()
    }

    /// The current 0-based capture index.
    pub fn index(&self) -> (r: usize)
        ensures
            r == self.state().index,
            r <= 21,
    {
        proof {
            use_type_invariant(self);
        }
        self.index
    }

    /// Whether feeding `event` now stays within `i32` arithmetic (the
    /// precondition of `feed` for a single event).
    pub fn can_feed(&self, event: &InputEvent) -> (r: bool)
        ensures
            r == step_safe(self.specs(), self.state(), *event),
    {
        proof {
            use_type_invariant(self);
        }
        if self.index >= 21 {
            return true;
        }
        let control = ControlId::at(self.index).unwrap();
        match self.pressed {
            None => {
                let kind = control.kind();
                if (kind == ControlKind::StickAxis || kind == ControlKind::Trigger) && event.type_
                    == EV_ABS && event.code <= 5 {
                    match self.axis_specs.get(&event.code) {
                        Some(spec) => rest_safe(spec, event.value, kind == ControlKind::Trigger),
                        None => true,
                    }
                } else {
                    true
                }
            },
            Some(Capture::Axis { code, peak, trigger }) => {
                if event.type_ == EV_ABS && event.code == code {
                    match self.axis_specs.get(&code) {
                        Some(spec) => {
                            if !rest_safe(spec, event.value, trigger) {
                                false
                            } else if released_from_rest(spec, event.value, trigger) {
                                true
                            } else {
                                event.value != i32::MIN && peak != i32::MIN
                            }
                        },
                        None => true,
                    }
                } else {
                    true
                }
            },
            Some(_) => true,
        }
    }

    /// Feed raw events. Returns the updates produced by this batch.
    ///
    /// A finished session ignores the batch. Otherwise the controls are
    /// captured in capture order starting at the current one, `Finished` is
    /// reported exactly when the batch completes the session (once, as the
    /// last update), and every control not captured keeps its binding.
    pub fn feed(&mut self, events: &[InputEvent]) -> (r: Vec<DetectorUpdate>)
        requires
            run_safe(old(self).specs(), old(self).state(), events@),
        ensures
            final(self).specs() == old(self).specs(),
            (final(self).state(), r@) == run(old(self).specs(), old(self).state(), events@),
            old(self).state().index >= 21 ==> r@.len() == 0 && final(self).state() == old(self).state(),
            old(self).state().index <= final(self).state().index <= 21,
            final(self).state().index == old(self).state().index + captured_count(r@),
            captured_controls(r@) == Seq::new(
                (final(self).state().index - old(self).state().index) as nat,
                |j: int| control_at(old(self).state().index + j),
            ),
            r@.contains(DetectorUpdate::Finished) <==> (old(self).state().index < 21 && final(self).state().index == 21),
            r@.contains(DetectorUpdate::Finished) ==> r@.last() == DetectorUpdate::Finished
                && !r@.drop_last().contains(DetectorUpdate::Finished),
            forall|c: ControlId|
                !captured_controls(r@).contains(c) ==> #[trigger] final(self).state().mapping.axis_of(c)
                    == old(self).state().mapping.axis_of(c) && final(self).state().mapping.button_of(
                    c,
                ) == old(self).state().mapping.button_of(c),
    {
        proof {
            use_type_invariant(&*self);
            law_batch_captures_in_order(self.specs(), self.state(), events@);
            law_progress_counts_captures(self.specs(), self.state(), events@);
            if self.state().index >= 21 {
                law_finished_is_absorbing(self.specs(), self.state(), events@);
            }
        }
        let ghost specs = self.specs();
        let ghost s0 = self.state();
        let mut updates: Vec<DetectorUpdate> = Vec::new();
        let mut i: usize = 0;
        assert(events@.take(0) =~= Seq::<InputEvent>::empty());
        while i < events.len()
            invariant
                0 <= i <= events@.len(),
                self.specs() == specs,
                run_safe(specs, s0, events@),
                (self.state(), updates@) == run(specs, s0, events@.take(i as int)),
            decreases events@.len() - i,
        {
            proof {
                use_type_invariant(&*self);
                lemma_run_safe_prefix(specs, s0, events@, i + 1);
                assert(events@.take(i + 1).drop_last() =~= events@.take(i as int));
                assert(events@.take(i + 1).last() == events@[i as int]);
            }
            let event = &events[i];
            let ghost before = updates@;
            if !self.is_finished() {
                let control = ControlId::at(self.index).unwrap();
                match self.pressed {
                    None => {
                        if let Some(capture) = self.detect_press(control, event) {
                            self.pressed = Some(capture);
                            updates.push(DetectorUpdate::Pressed { control });
                        }
                    },
                    Some(held) => {
                        if self.is_release(&held, event) {
                            self.pressed = None;
                            self.commit(control, held);
                            updates.push(DetectorUpdate::Captured { control });
                            self.index = self.index + 1;
                            if self.is_finished() {
                                updates.push(DetectorUpdate::Finished);
                            }
                        } else if let Capture::Axis { code, peak, trigger } = held {
                            // Track the furthest deflection so the sign reflects the real
                            // direction the user pushed, even on a slow press.
                            if event.type_ == EV_ABS && event.code == code && abs_i32(event.value)
                                > abs_i32(peak) {
                                self.pressed = Some(Capture::Axis { code, peak: event.value, trigger });
                            }
                        }
                    },
                }
            }
            proof {
                assert(updates@ =~= before + step(specs, run(specs, s0, events@.take(i as int)).0, events@[i as int]).1);
            }
            i = i + 1;
        }
        assert(events@.take(events@.len() as int) =~= events@);
        updates
    }

    /// Skip the current control (equivalent to pressing Enter/Skip). It is left
    /// unmapped and the session advances. Returns the skipped control.
    pub fn skip_current(&mut self) -> (r: Option<ControlId>)
        ensures
            final(self).specs() == old(self).specs(),
            old(self).state().index >= 21 ==> r is None && final(self).state() == old(self).state(),
            old(self).state().index < 21 ==> {
                let control = control_at(old(self).state().index as int);
                &&& r == Some(control)
                &&& final(self).state() == DetectorState {
                    mapping: old(self).state().mapping.with_axis(control, None).with_button(
                        control,
                        None,
                    ),
                    index: old(self).state().index + 1,
                    pressed: None,
                }
            },
    {
        proof {
            use_type_invariant(&*self);
        }
        let control = match self.current() {
            Some(control) => control,
            None => return None,
        };
        // Clearing both kinds is harmless: `set_axis` is a no-op for button
        // controls and `set_button` is a no-op for stick axes.
        self.mapping.set_axis(control, None);
        self.mapping.set_button(control, None);
        self.pressed = None;
        self.index = self.index + 1;
        Some(control)
    }

    /// Jump to a specific control without capturing anything.
    pub fn jump_to(&mut self, control: ControlId)
        ensures
            final(self).specs() == old(self).specs(),
            final(self).state() == (DetectorState {
                mapping: old(self).state().mapping,
                index: index_of(control) as nat,
                pressed: None,
            }),
    {
        proof {
            use_type_invariant(&*self);
        }
        self.index = control.position();
        self.pressed = None;
    }

    /// Human-readable status for the mapping view.
    pub fn status_text(&self) -> (r: String)
        ensures
            r@ == status_line(self.state()),
    {
        proof {
            use_type_invariant(self);
        }
        if self.is_finished() {
            return "All controls mapped.".to_owned();
        }
        let control = ControlId::at(self.index).unwrap();
        if self.pressed.is_some() {
            held_status(control)
        } else {
            control.instruction().to_owned()
        }
    }

    /// Detect a press for `control` from a single event.
    fn detect_press(&self, control: ControlId, event: &InputEvent) -> (r: Option<Capture>)
        requires
            detect_safe(self.specs(), control, *event),
        ensures
            r == spec_detect_press(self.specs(), control, *event),
    {
        match control.kind() {
            ControlKind::Button => {
                if event.type_ == EV_KEY && event.value == 1 {
                    Some(Capture::Key { code: event.code })
                } else {
                    None
                }
            },
            ControlKind::DPad => {
                if event.type_ == EV_ABS && (event.code == 16 || event.code == 17) && event.value
                    != 0 {
                    Some(Capture::Hat { code: event.code, value: event.value })
                } else {
                    None
                }
            },
            ControlKind::StickAxis | ControlKind::Trigger => {
                let trigger = control.kind() == ControlKind::Trigger;
                // Triggers may be momentary buttons.
                if trigger && event.type_ == EV_KEY && event.value == 1 {
                    return Some(Capture::Key { code: event.code });
                }
                if event.type_ == EV_ABS && event.code <= 5 {
                    match self.axis_specs.get(&event.code) {
                        Some(spec) => {
                            if moved_from_rest(spec, event.value, trigger) {
                                return Some(
                                    Capture::Axis { code: event.code, peak: event.value, trigger },
                                );
                            }
                        },
                        None => {
                            if event.value != 0 {
                                return Some(
                                    Capture::Axis { code: event.code, peak: event.value, trigger },
                                );
                            }
                        },
                    }
                }
                None
            },
        }
    }

    /// Whether `event` releases the held `pressed` capture.
    fn is_release(&self, pressed: &Capture, event: &InputEvent) -> (r: bool)
        requires
            hold_safe(self.specs(), *pressed, *event),
        ensures
            r == spec_is_release(self.specs(), *pressed, *event),
    {
        match pressed {
            Capture::Key { code } => event.type_ == EV_KEY && event.code == *code && event.value
                == 0,
            Capture::Hat { code, .. } => event.type_ == EV_ABS && event.code == *code
                && event.value == 0,
            Capture::Axis { code, trigger, .. } => {
                if event.type_ == EV_ABS && event.code == *code {
                    match self.axis_specs.get(code) {
                        Some(spec) => released_from_rest(spec, event.value, *trigger),
                        None => true,
                    }
                } else {
                    false
                }
            },
        }
    }

    /// Store a completed capture into the mapping.
    fn commit(&mut self, control: ControlId, capture: Capture)
        ensures
            final(self).specs() == old(self).specs(),
            final(self).state() == (DetectorState {
                mapping: spec_commit(old(self).state().mapping, control, capture),
                ..old(self).state()
            }),
    {
        proof {
            use_type_invariant(&*self);
        }
        match capture {
            Capture::Key { code } => {
                self.mapping.set_button(control, Some(InputSource::key(code)));
            },
            Capture::Hat { code, value } => {
                self.mapping.set_button(control, Some(InputSource::hat(code, value)));
            },
            Capture::Axis { code, peak, trigger } => {
                if !trigger {
                    self.mapping.set_axis(
                        control,
                        Some(AxisMapping::new(InputSource::axis(code), peak > 0)),
                    );
                } else {
                    self.mapping.set_button(control, Some(InputSource::axis(code)));
                }
            },
        }
    }
}

/// The status line shown for a session state.
pub open spec fn status_line(s: DetectorState) -> Seq<char> {
    if s.index >= 21 {
        "All controls mapped."@
    } else if s.pressed is Some {
        held_line(control_at(s.index as int))
    } else {
        control_instruction(control_at(s.index as int))
    }
}

fn abs_i32(v: i32) -> (r: i32)
    requires
        v != i32::MIN,
    ensures
        r == abs(v as int),
{
    if v < 0 {
        -v
    } else {
        v
    }
}

fn rest_safe(spec: &AxisSpec, value: i32, trigger: bool) -> (r: bool)
    ensures
        r == rest_test_safe(*spec, value, trigger),
{
    let base: i64 = if trigger {
        spec.min as i64
    } else {
        spec.center as i64
    };
    let d: i64 = value as i64 - base;
    (i32::MIN as i64) < d && d <= (i32::MAX as i64)
}

fn moved_from_rest(spec: &AxisSpec, value: i32, trigger: bool) -> (r: bool)
    requires
        rest_test_safe(*spec, value, trigger),
    ensures
        r == spec_moved_from_rest(*spec, value, trigger),
{
    if trigger {
        abs_i32(value - spec.min) > spec.deadzone
    } else {
        spec.is_moved(value)
    }
}

fn released_from_rest(spec: &AxisSpec, value: i32, trigger: bool) -> (r: bool)
    requires
        rest_test_safe(*spec, value, trigger),
    ensures
        r == spec_released_from_rest(*spec, value, trigger),
{
    if trigger {
        abs_i32(value - spec.min) <= spec.deadzone
    } else {
        spec.is_center(value)
    }
}

} // verus!

verus! {

/// How many `Captured` updates a sequence of updates holds.
pub open spec fn captured_count(updates: Seq<DetectorUpdate>) -> nat
    decreases updates.len(),
{
    if updates.len() == 0 {
        0
    } else {
        captured_count(updates.drop_last()) + if updates.last() is Captured {
            1nat
        } else {
            0nat
        }
    }
}

proof fn lemma_captured_count_concat(a: Seq<DetectorUpdate>, b: Seq<DetectorUpdate>)
    ensures
        captured_count(a + b) == captured_count(a) + captured_count(b),
    decreases b.len(),
{
    if b.len() > 0 {
        assert((a + b).drop_last() =~= a + b.drop_last());
        lemma_captured_count_concat(a, b.drop_last());
    } else {
        assert(a + b =~= a);
    }
}

/// A press on its own never captures: from a state with nothing held, one
/// event leaves the position and the mapping as they were.
pub proof fn law_press_alone_never_captures(
    specs: Map<u16, AxisSpec>,
    s: DetectorState,
    event: InputEvent,
)
    requires
        s.pressed is None,
    ensures
        step(specs, s, event).0.index == s.index,
        step(specs, s, event).0.mapping == s.mapping,
{
}

/// One event changes at most the binding of the control being captured.
pub proof fn law_step_touches_only_current_control(
    specs: Map<u16, AxisSpec>,
    s: DetectorState,
    event: InputEvent,
    other: ControlId,
)
    requires
        s.index >= 21 || other != control_at(s.index as int),
    ensures
        step(specs, s, event).0.mapping.axis_of(other) == s.mapping.axis_of(other),
        step(specs, s, event).0.mapping.button_of(other) == s.mapping.button_of(other),
{
}

/// Only stick controls receive axis bindings, and a stick is inverted exactly
/// when the furthest deflection seen while it was held was positive; every
/// other control keeps the axis bindings as they were and gets a plain,
/// never-inverted source.
pub proof fn law_commit_direction(
    m: MappingView,
    control: ControlId,
    code: u16,
    peak: i32,
    capture: Capture,
    other: ControlId,
)
    ensures
        is_stick(control) ==> spec_commit(
            m,
            control,
            Capture::Axis { code, peak, trigger: false },
        ).axis_of(control) == Some(AxisView { source: axis_source(code), invert: peak > 0 }),
        !is_stick(control) ==> spec_commit(m, control, capture).axis_of(other) == m.axis_of(
            other,
        ),
{
}

/// Each kind of control only listens to its own kind of input: buttons to
/// key presses, the d-pad to hat axes, sticks to the six analog axes, and
/// triggers to key presses or the six analog axes. Hat events never start a
/// stick or trigger capture and analog axes never start a d-pad capture.
pub proof fn law_capture_matches_control_kind(
    specs: Map<u16, AxisSpec>,
    control: ControlId,
    event: InputEvent,
)
    ensures
        spec_detect_press(specs, control, event) matches Some(c) ==> match control_kind(control) {
            ControlKind::Button => c == Capture::Key { code: event.code } && event.type_ == EV_KEY
                && event.value == 1,
            ControlKind::DPad => c == Capture::Hat { code: event.code, value: event.value }
                && event.type_ == EV_ABS && (event.code == 16 || event.code == 17),
            ControlKind::StickAxis => c == Capture::Axis {
                code: event.code,
                peak: event.value,
                trigger: false,
            } && event.type_ == EV_ABS && event.code <= 5,
            ControlKind::Trigger => (c == Capture::Key { code: event.code } && event.type_
                == EV_KEY && event.value == 1) || (c == Capture::Axis {
                code: event.code,
                peak: event.value,
                trigger: true,
            } && event.type_ == EV_ABS && event.code <= 5),
        },
{
}

/// Once every control is done, feeding more events changes nothing and
/// reports nothing.
pub proof fn law_finished_is_absorbing(
    specs: Map<u16, AxisSpec>,
    s: DetectorState,
    events: Seq<InputEvent>,
)
    requires
        s.index >= 21,
    ensures
        run(specs, s, events) == (s, Seq::<DetectorUpdate>::empty()),
    decreases events.len(),
{
    if events.len() > 0 {
        law_finished_is_absorbing(specs, s, events.drop_last());
        assert(Seq::<DetectorUpdate>::empty() + Seq::<DetectorUpdate>::empty() =~= Seq::<
            DetectorUpdate,
        >::empty());
    }
}

/// The session advances exactly once per reported capture, never moves
/// backwards and never passes the end of the capture order.
pub proof fn law_progress_counts_captures(
    specs: Map<u16, AxisSpec>,
    s: DetectorState,
    events: Seq<InputEvent>,
)
    requires
        s.index <= 21,
    ensures
        run(specs, s, events).0.index == s.index + captured_count(run(specs, s, events).1),
        run(specs, s, events).0.index <= 21,
    decreases events.len(),
{
    if events.len() > 0 {
        law_progress_counts_captures(specs, s, events.drop_last());
        let before = run(specs, s, events.drop_last());
        let after = step(specs, before.0, events.last());
        lemma_captured_count_concat(before.1, after.1);
        lemma_step_counts_capture(specs, before.0, events.last());
    }
}

proof fn lemma_step_counts_capture(specs: Map<u16, AxisSpec>, s: DetectorState, event: InputEvent)
    requires
        s.index <= 21,
    ensures
        step(specs, s, event).0.index == s.index + captured_count(step(specs, s, event).1),
{
    let u = step(specs, s, event).1;
    reveal_with_fuel(captured_count, 3);
    if u.len() == 1 {
        assert(u.drop_last() =~= Seq::<DetectorUpdate>::empty());
    } else if u.len() == 2 {
        assert(u.drop_last().drop_last() =~= Seq::<DetectorUpdate>::empty());
    }
}


/// The controls a sequence of updates reports as captured, in order.
pub open spec fn captured_controls(updates: Seq<DetectorUpdate>) -> Seq<ControlId>
    decreases updates.len(),
{
    if updates.len() == 0 {
        seq![]
    } else {
        captured_controls(updates.drop_last()) + match updates.last() {
            DetectorUpdate::Captured { control } => seq![control],
            _ => seq![],
        }
    }
}

proof fn lemma_captured_controls_concat(a: Seq<DetectorUpdate>, b: Seq<DetectorUpdate>)
    ensures
        captured_controls(a + b) == captured_controls(a) + captured_controls(b),
    decreases b.len(),
{
    if b.len() > 0 {
        assert((a + b).drop_last() =~= a + b.drop_last());
        lemma_captured_controls_concat(a, b.drop_last());
        assert(captured_controls(a + b) =~= captured_controls(a) + captured_controls(b));
    } else {
        assert(a + b =~= a);
        assert(captured_controls(a) + captured_controls(b) =~= captured_controls(a));
    }
}

/// What one event does: nothing, a press on the current control, or the
/// capture of the current control (followed by `Finished` when it was the
/// last one), which changes no other control's binding.
proof fn lemma_step_shape(specs: Map<u16, AxisSpec>, s: DetectorState, event: InputEvent)
    requires
        s.index <= 21,
    ensures
        ({
            let t = step(specs, s, event).0;
            let u = step(specs, s, event).1;
            let c = control_at(s.index as int);
            ||| (u == Seq::<DetectorUpdate>::empty() && t.index == s.index && t.mapping
                == s.mapping)
            ||| (s.index < 21 && u == seq![DetectorUpdate::Pressed { control: c }] && t.index
                == s.index && t.mapping == s.mapping)
            ||| (s.index < 21 && t.index == s.index + 1 && u == seq![
                DetectorUpdate::Captured { control: c },
            ] + (if s.index + 1 == 21 {
                seq![DetectorUpdate::Finished]
            } else {
                Seq::<DetectorUpdate>::empty()
            }) && forall|o: ControlId|
                o != c ==> #[trigger] t.mapping.axis_of(o) == s.mapping.axis_of(o)
                    && t.mapping.button_of(o) == s.mapping.button_of(o))
        }),
{
    let t = step(specs, s, event).0;
    let u = step(specs, s, event).1;
    let c = control_at(s.index as int);
    if s.index < 21 && t.index == s.index + 1 {
        if s.index + 1 == 21 {
            assert(u =~= seq![DetectorUpdate::Captured { control: c }] + seq![
                DetectorUpdate::Finished,
            ]);
        } else {
            assert(u =~= seq![DetectorUpdate::Captured { control: c }] + Seq::<
                DetectorUpdate,
            >::empty());
        }
        assert forall|o: ControlId| o != c implies #[trigger] t.mapping.axis_of(o)
            == s.mapping.axis_of(o) && t.mapping.button_of(o) == s.mapping.button_of(o) by {
            law_step_touches_only_current_control(specs, s, event, o);
        }
    }
}

/// Feeding a batch of events captures controls strictly in capture order,
/// starting at the control being offered; reports `Finished` exactly when
/// the batch completes the session, then only once and as the last update;
/// and leaves the binding of every control it does not capture as it was.
pub proof fn law_batch_captures_in_order(
    specs: Map<u16, AxisSpec>,
    s: DetectorState,
    events: Seq<InputEvent>,
)
    requires
        s.index <= 21,
    ensures
        ({
            let t = run(specs, s, events).0;
            let r = run(specs, s, events).1;
            &&& s.index <= t.index <= 21
            &&& captured_controls(r) == Seq::new(
                (t.index - s.index) as nat,
                |j: int| control_at(s.index + j),
            )
            &&& r.contains(DetectorUpdate::Finished) <==> (s.index < 21 && t.index == 21)
            &&& r.contains(DetectorUpdate::Finished) ==> r.last() == DetectorUpdate::Finished
                && !r.drop_last().contains(DetectorUpdate::Finished)
            &&& forall|c: ControlId|
                !captured_controls(r).contains(c) ==> #[trigger] t.mapping.axis_of(c)
                    == s.mapping.axis_of(c) && t.mapping.button_of(c) == s.mapping.button_of(c)
        }),
    decreases events.len(),
{
    let t = run(specs, s, events).0;
    let r = run(specs, s, events).1;
    if events.len() == 0 {
        assert(captured_controls(r) =~= Seq::new(
            (t.index - s.index) as nat,
            |j: int| control_at(s.index + j),
        ));
        assert(!r.contains(DetectorUpdate::Finished));
    } else {
        law_batch_captures_in_order(specs, s, events.drop_last());
        let t0 = run(specs, s, events.drop_last()).0;
        let r0 = run(specs, s, events.drop_last()).1;
        let u = step(specs, t0, events.last()).1;
        assert(r == r0 + u);
        lemma_step_shape(specs, t0, events.last());
        lemma_captured_controls_concat(r0, u);
        let c = control_at(t0.index as int);
        if t0.index < 21 && t.index == t0.index + 1 {
            assert(!r0.contains(DetectorUpdate::Finished));
            let tail: Seq<DetectorUpdate> = if t0.index + 1 == 21 {
                seq![DetectorUpdate::Finished]
            } else {
                Seq::<DetectorUpdate>::empty()
            };
            assert(u == seq![DetectorUpdate::Captured { control: c }] + tail);
            lemma_captured_controls_concat(seq![DetectorUpdate::Captured { control: c }], tail);
            reveal_with_fuel(captured_controls, 2);
            assert(seq![DetectorUpdate::Captured { control: c }].drop_last() =~= Seq::<
                DetectorUpdate,
            >::empty());
            if t0.index + 1 == 21 {
                assert(tail.drop_last() =~= Seq::<DetectorUpdate>::empty());
            }
            assert(captured_controls(u) =~= seq![c]);
            assert(captured_controls(r) =~= Seq::new(
                (t.index - s.index) as nat,
                |j: int| control_at(s.index + j),
            ));
            if t0.index + 1 == 21 {
                assert(r.last() == DetectorUpdate::Finished);
                assert(r.drop_last() =~= r0 + seq![DetectorUpdate::Captured { control: c }]);
                assert(!r.drop_last().contains(DetectorUpdate::Finished)) by {
                    if r.drop_last().contains(DetectorUpdate::Finished) {
                        let k = choose|k: int|
                            0 <= k < r.drop_last().len() && r.drop_last()[k]
                                == DetectorUpdate::Finished;
                        if k < r0.len() {
                            assert(r0[k] == DetectorUpdate::Finished);
                        }
                    }
                }
                assert(r.contains(DetectorUpdate::Finished)) by {
                    assert(r[r.len() - 1] == DetectorUpdate::Finished);
                }
            } else {
                assert(r =~= r0 + seq![DetectorUpdate::Captured { control: c }]);
                assert(!r.contains(DetectorUpdate::Finished)) by {
                    if r.contains(DetectorUpdate::Finished) {
                        let k = choose|k: int|
                            0 <= k < r.len() && r[k] == DetectorUpdate::Finished;
                        if k < r0.len() {
                            assert(r0[k] == DetectorUpdate::Finished);
                        }
                    }
                }
            }
            assert forall|o: ControlId| !captured_controls(r).contains(o) implies #[trigger] t.mapping.axis_of(o)
                == s.mapping.axis_of(o) && t.mapping.button_of(o) == s.mapping.button_of(o) by {
                assert(captured_controls(r) == captured_controls(r0) + seq![c]);
                if captured_controls(r0).contains(o) {
                    let k = choose|k: int|
                        0 <= k < captured_controls(r0).len() && captured_controls(r0)[k] == o;
                    assert(captured_controls(r)[k] == o);
                }
                if o == c {
                    assert(captured_controls(r)[captured_controls(r).len() - 1] == c);
                }
            }
        } else {
            assert(u.len() <= 1);
            assert(captured_controls(u) =~= Seq::<ControlId>::empty()) by {
                reveal_with_fuel(captured_controls, 2);
                if u.len() == 1 {
                    assert(u.drop_last() =~= Seq::<DetectorUpdate>::empty());
                }
            }
            assert(captured_controls(r) =~= captured_controls(r0));
            if r0.contains(DetectorUpdate::Finished) {
                assert(u =~= Seq::<DetectorUpdate>::empty());
                assert(r =~= r0);
            } else {
                assert(!r.contains(DetectorUpdate::Finished)) by {
                    if r.contains(DetectorUpdate::Finished) {
                        let k = choose|k: int|
                            0 <= k < r.len() && r[k] == DetectorUpdate::Finished;
                        if k < r0.len() {
                            assert(r0[k] == DetectorUpdate::Finished);
                        }
                    }
                }
            }
        }
    }
}

} // verus!
