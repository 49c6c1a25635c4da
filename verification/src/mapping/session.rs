//! Decisions of a live mapping session.
//!
//! A session runs the `MappingDetector` against a real device; the loop that
//! reads the device and the channels lives outside the library. This module
//! holds what that loop decides: which updates a command or an event
//! produces for the UI, and when the session stops.

use vstd::prelude::*;

use crate::controllers::evdev::InputEvent;
use crate::mapping::detector::{
    run, run_safe, step, step_safe, DetectorState, DetectorUpdate, MappingDetector,
};
use crate::mapping::model::{control_at, index_of, ControlId, ControllerMapping, MappingView};

verus! {

/// Commands the UI can send to the running session.
#[derive(Debug, Clone, Copy, PartialEq, Eq, Structural)]
pub enum MappingCommand {
    /// Skip the current control (leave it unmapped) and advance.
    Skip,
    /// Jump to a specific control.
    JumpTo(ControlId),
    /// Stop the session.
    Cancel,
}

/// State changes the session reports back to the UI.
#[derive(Debug, PartialEq)]
pub enum MappingUpdate {
    /// A press is being held on `control`.
    Held { control: ControlId },
    /// `control` was captured or skipped; `mapping` is the new full mapping and
    /// `next` is the control now being offered (`None` when the session is over).
    Changed { control: ControlId, mapping: ControllerMapping, next: Option<ControlId> },
    /// All controls have been processed.
    Finished,
    /// The session was cancelled.
    Cancelled,
    /// The device failed.
    Error(String),
}

/// The mathematical value of a `MappingUpdate`.
pub enum UpdateView {
    Held { control: ControlId },
    Changed { control: ControlId, mapping: MappingView, next: Option<ControlId> },
    Finished,
    Cancelled,
    Error(Seq<char>),
}

impl View for MappingUpdate {
    type V = UpdateView;

    open spec fn view(&self) -> UpdateView {
        match self {
            MappingUpdate::Held { control } => UpdateView::Held { control: *control },
            MappingUpdate::Changed { control, mapping, next } => UpdateView::Changed {
                control: *control,
                mapping: mapping@,
                next: *next,
            },
            MappingUpdate::Finished => UpdateView::Finished,
            MappingUpdate::Cancelled => UpdateView::Cancelled,
            MappingUpdate::Error(message) => UpdateView::Error(message@),
        }
    }
}

/// The views of a sequence of updates.
pub open spec fn updates_view(u: Seq<MappingUpdate>) -> Seq<UpdateView> {
    u.map_values(|x: MappingUpdate| x@)
}

/// The control offered in a session state, if any.
pub open spec fn offered(s: DetectorState) -> Option<ControlId> {
    if s.index < 21 {
        Some(control_at(s.index as int))
    } else {
        None
    }
}

/// What the UI is told after `control` was captured or skipped, leaving the
/// session in state `s`: the new mapping and the next control, followed by
/// `Finished` when no control is left.
pub open spec fn changed_updates(s: DetectorState, control: ControlId) -> Seq<UpdateView> {
    let changed = UpdateView::Changed { control, mapping: s.mapping, next: offered(s) };
    if offered(s) is None {
        seq![changed, UpdateView::Finished]
    } else {
        seq![changed]
    }
}

/// Announce that `control` was captured or skipped.
pub fn emit_changed(detector: &MappingDetector, control: ControlId) -> (r: Vec<MappingUpdate>)
    ensures
        updates_view(r@) == changed_updates(detector.state(), control),
{
    let mapping = detector.mapping_owned();
    let next = detector.current();
    let mut out: Vec<MappingUpdate> = Vec::new();
    out.push(MappingUpdate::Changed { control, mapping, next });
    if next.is_none() {
        out.push(MappingUpdate::Finished);
    }
    assert(updates_view(out@) =~= changed_updates(detector.state(), control));
    out
}

/// The UI updates for the detector updates of one event, `s` being the
/// state after that event.
pub open spec fn event_updates(s: DetectorState, detected: Seq<DetectorUpdate>) -> Seq<UpdateView>
    decreases detected.len(),
{
    if detected.len() == 0 {
        seq![]
    } else {
        event_updates(s, detected.drop_last()) + match detected.last() {
            DetectorUpdate::Pressed { control } => seq![UpdateView::Held { control }],
            DetectorUpdate::Captured { control } => changed_updates(s, control),
            DetectorUpdate::Finished => seq![UpdateView::Finished],
        }
    }
}

/// Handle one command from the UI. Returns the updates to send and whether
/// the session stops.
pub fn apply_command(detector: &mut MappingDetector, command: MappingCommand) -> (r: (
    Vec<MappingUpdate>,
    bool,
))
    ensures
        final(detector).specs() == old(detector).specs(),
        match command {
            MappingCommand::Skip => {
                &&& !r.1
                &&& if old(detector).state().index < 21 {
                    let control = control_at(old(detector).state().index as int);
                    &&& final(detector).state() == DetectorState {
                        mapping: old(detector).state().mapping.with_axis(control, None).with_button(
                            control,
                            None,
                        ),
                        index: old(detector).state().index + 1,
                        pressed: None,
                    }
                    &&& updates_view(r.0@) == changed_updates(final(detector).state(), control)
                } else {
                    &&& final(detector).state() == old(detector).state()
                    &&& r.0@.len() == 0
                }
            },
            MappingCommand::JumpTo(control) => {
                &&& !r.1
                &&& final(detector).state() == DetectorState {
                    mapping: old(detector).state().mapping,
                    index: index_of(control) as nat,
                    pressed: None,
                }
                &&& updates_view(r.0@) == seq![
                    UpdateView::Changed {
                        control,
                        mapping: old(detector).state().mapping,
                        next: Some(control),
                    },
                ]
            },
            MappingCommand::Cancel => {
                &&& r.1
                &&& final(detector).state() == old(detector).state()
                &&& updates_view(r.0@) == seq![UpdateView::Cancelled]
            },
        },
{
    match command {
        MappingCommand::Skip => {
            match detector.skip_current() {
                Some(control) => (emit_changed(detector, control), false),
                None => (Vec::new(), false),
            }
        },
        MappingCommand::JumpTo(control) => {
            detector.jump_to(control);
            let mut out: Vec<MappingUpdate> = Vec::new();
            // Re-show the jumped-to control in the waiting phase.
            if let Some(control) = detector.current() {
                out.push(
                    MappingUpdate::Changed {
                        control,
                        mapping: detector.mapping_owned(),
                        next: Some(control),
                    },
                );
            }
            assert(updates_view(out@) =~= seq![
                UpdateView::Changed {
                    control,
                    mapping: old(detector).state().mapping,
                    next: Some(control),
                },
            ]);
            (out, false)
        },
        MappingCommand::Cancel => {
            let mut out: Vec<MappingUpdate> = Vec::new();
            out.push(MappingUpdate::Cancelled);
            assert(updates_view(out@) =~= seq![UpdateView::Cancelled]);
            (out, true)
        },
    }
}

/// Handle one event read from the device. Returns the updates to send and
/// whether the session stops (it stops once every control is done).
pub fn apply_event(detector: &mut MappingDetector, event: InputEvent) -> (r: (
    Vec<MappingUpdate>,
    bool,
))
    requires
        step_safe(old(detector).specs(), old(detector).state(), event),
    ensures
        final(detector).specs() == old(detector).specs(),
        final(detector).state() == step(old(detector).specs(), old(detector).state(), event).0,
        ({
            let detected = step(old(detector).specs(), old(detector).state(), event).1;
            &&& r.1 == detected.contains(DetectorUpdate::Finished)
            &&& updates_view(r.0@) == event_updates(final(detector).state(), detected)
        }),
{
    let ghost s0 = detector.state();
    let ghost specs = detector.specs();
    let mut events: Vec<InputEvent> = Vec::new();
    events.push(event);
    proof {
        assert(events@.drop_last() =~= Seq::<InputEvent>::empty());
        assert(events@.last() == event);
        assert(step_safe(specs, s0, event));
        assert(run(specs, s0, events@.drop_last()) == (s0, Seq::<DetectorUpdate>::empty()));
        assert(run_safe(specs, s0, events@.drop_last()));
        assert(run_safe(specs, s0, events@));
    }
    let detected = detector.feed(events.as_slice());
    proof {
        assert(detected@ =~= step(specs, s0, event).1);
    }
    let mut out: Vec<MappingUpdate> = Vec::new();
    let mut i: usize = 0;
    while i < detected.len()
        invariant
            i <= detected@.len(),
            detected@ == step(specs, s0, event).1,
            detector.state() == step(specs, s0, event).0,
            detector.specs() == specs,
            specs == old(detector).specs(),
            s0 == old(detector).state(),
            updates_view(out@) == event_updates(detector.state(), detected@.take(i as int)),
            forall|k: int| 0 <= k < i ==> detected@[k] != DetectorUpdate::Finished,
        decreases detected@.len() - i,
    {
        let ghost before = out@;
        proof {
            assert(detected@.take(i + 1).drop_last() =~= detected@.take(i as int));
        }
        match detected[i] {
            DetectorUpdate::Pressed { control } => {
                out.push(MappingUpdate::Held { control });
            },
            DetectorUpdate::Captured { control } => {
                let mut changed = emit_changed(detector, control);
                out.append(&mut changed);
            },
            DetectorUpdate::Finished => {
                out.push(MappingUpdate::Finished);
                proof {
                    assert(updates_view(out@) =~= event_updates(detector.state(), detected@.take(i + 1)));
                }
                return (out, true);
            },
        }
        assert(updates_view(out@) =~= event_updates(detector.state(), detected@.take(i + 1)));
        i = i + 1;
    }
    proof {
        assert(detected@.take(detected@.len() as int) =~= detected@);
    }
    (out, false)
}

} // verus!
