//! Classification of discovered input devices.
//!
//! A device is a game controller when its evdev capabilities include both a
//! gamepad axis and a gamepad button. The transient `/dev/input/eventN` path
//! is kept only as a runtime handle, never as an identity.

use std::collections::HashMap;

use vstd::prelude::*;

use crate::controllers::evdev::GAMEPAD_AXES;
use crate::controllers::identity::{
    identity_from_table, identity_with_default_name, lookup_or, property_or_default,
    property_table, ControllerIdentity,
};
use crate::text::{lemma_lex_total, lemma_lex_trans, lex_le, starts_with, str_le};

verus! {

/// A controller found on the system right now.
#[derive(Debug)]
pub struct DiscoveredController {
    pub identity: ControllerIdentity,
    /// Runtime device node, e.g. `/dev/input/event7`. NOT a persistent identity.
    pub device_path: String,
    /// udev device path (DEVPATH), e.g. `/devices/.../input/input5`.
    pub devpath: String,
}

impl Clone for DiscoveredController {
    fn clone(&self) -> (r: Self)
        ensures
            r == *self,
    {
        DiscoveredController {
            identity: self.identity.clone(),
            device_path: self.device_path.clone(),
            devpath: self.devpath.clone(),
        }
    }
}

/// evdev capability snapshot used for classification.
#[derive(Debug)]
pub struct DeviceCaps {
    pub name: String,
    pub abs_axes: Vec<u16>,
    pub keys: Vec<u16>,
}

impl Default for DeviceCaps {
    fn default() -> (r: Self)
        ensures
            r.name@ == Seq::<char>::empty(),
            r.abs_axes@ == Seq::<u16>::empty(),
            r.keys@ == Seq::<u16>::empty(),
    {
        DeviceCaps { name: String::new(), abs_axes: Vec::new(), keys: Vec::new() }
    }
}

/// Gamepad axes: the six stick/trigger axes and the first hat.
pub open spec fn is_game_axis(code: u16) -> bool {
    code <= 5 || code == 16 || code == 17
}

/// Buttons considered evidence of a game controller: the joystick range
/// `BTN_TRIGGER..=BTN_BASE6` (288–299), modern gamepad buttons through
/// `BTN_THUMBR` (300–318), and the `BTN_DPAD_*` buttons (544–547).
pub open spec fn spec_is_gamepad_key(code: u16) -> bool {
    (288 <= code <= 318) || (544 <= code <= 547)
}

/// Whether a capability snapshot looks like a game controller.
pub open spec fn spec_caps_are_gamepad(abs_axes: Seq<u16>, keys: Seq<u16>) -> bool {
    (exists|i: int| 0 <= i < abs_axes.len() && is_game_axis(#[trigger] abs_axes[i])) && (exists|
        j: int,
    |
        0 <= j < keys.len() && spec_is_gamepad_key(#[trigger] keys[j]))
}

pub fn is_gamepad_key(code: u16) -> (r: bool)
    ensures
        r == spec_is_gamepad_key(code),
{
    (288 <= code && code <= 318) || (544 <= code && code <= 547)
}

/// Decide whether a capability snapshot looks like a game controller.
pub fn caps_are_gamepad(caps: &DeviceCaps) -> (r: bool)
    ensures
        r == spec_caps_are_gamepad(caps.abs_axes@, caps.keys@),
{
    let mut has_game_axes = false;
    let mut i: usize = 0;
    while i < caps.abs_axes.len()
        invariant
            i <= caps.abs_axes@.len(),
            has_game_axes == (exists|k: int| 0 <= k < i && is_game_axis(#[trigger] caps.abs_axes@[k])),
        decreases caps.abs_axes@.len() - i,
    {
        let code = caps.abs_axes[i];
        if code <= 5 || code == 16 || code == 17 {
            has_game_axes = true;
        }
        i = i + 1;
    }
    let mut has_game_buttons = false;
    let mut j: usize = 0;
    while j < caps.keys.len()
        invariant
            j <= caps.keys@.len(),
            has_game_buttons == (exists|k: int| 0 <= k < j && spec_is_gamepad_key(#[trigger] caps.keys@[k])),
        decreases caps.keys@.len() - j,
    {
        if is_gamepad_key(caps.keys[j]) {
            has_game_buttons = true;
        }
        j = j + 1;
    }
    has_game_axes && has_game_buttons
}

/// What probing one `/dev/input/eventN` device finds, given its udev
/// properties, its evdev capabilities, its node and its sysfs path: nothing
/// when it is not a game controller; otherwise the controller, named from
/// `NAME` or else from the evdev name, with `DEVPATH` or else the sysfs path.
pub fn classify_probed_device(
    props: &HashMap<String, String>,
    caps: &DeviceCaps,
    device_path: String,
    syspath: &str,
) -> (r: Option<DiscoveredController>)
    ensures
        r is None <==> !spec_caps_are_gamepad(caps.abs_axes@, caps.keys@),
        r matches Some(d) ==> {
            &&& d.identity@ == identity_from_table(property_table(*props), caps.name@)
            &&& d.device_path == device_path
            &&& d.devpath@ == lookup_or(property_table(*props), "DEVPATH"@, syspath@)
        },
{
    if !caps_are_gamepad(caps) {
        return None;
    }
    let identity = identity_with_default_name(props, caps.name.as_str());
    let devpath = property_or_default(props, "DEVPATH", syspath);
    Some(DiscoveredController { identity, device_path, devpath })
}


/// The candidates that occur in `supported`, in candidate order.
pub open spec fn present_in(candidates: Seq<u16>, supported: Seq<u16>) -> Seq<u16>
    decreases candidates.len(),
{
    if candidates.len() == 0 {
        Seq::empty()
    } else {
        let rest = present_in(candidates.drop_last(), supported);
        if supported.contains(candidates.last()) {
            rest.push(candidates.last())
        } else {
            rest
        }
    }
}

/// The gamepad axes, in the order they are probed.
pub open spec fn gamepad_axes() -> Seq<u16> {
    seq![0u16, 1u16, 2u16, 3u16, 4u16, 5u16, 16u16, 17u16]
}

/// The button codes probed for a capability snapshot, `288..=318`.
pub open spec fn probed_buttons() -> Seq<u16> {
    Seq::new(31, |i: int| (288 + i) as u16)
}

/// Whether `code` occurs in `codes`.
pub fn contains_code(codes: &Vec<u16>, code: u16) -> (r: bool)
    ensures
        r == codes@.contains(code),
{
    let mut i: usize = 0;
    while i < codes.len()
        invariant
            i <= codes.len(),
            forall|k: int| 0 <= k < i ==> codes@[k] != code,
        decreases codes.len() - i,
    {
        if codes[i] == code {
            return true;
        }
        i = i + 1;
    }
    false
}

/// The capability snapshot of a device from its evdev name and the codes
/// it reports: the gamepad axes it supports (in probe order), the buttons
/// of `288..=318` it supports (ascending), and `Unknown Controller` when it
/// has no name.
pub fn device_caps(name: Option<&str>, supported_abs: &Vec<u16>, supported_keys: &Vec<u16>) -> (r:
    DeviceCaps)
    ensures
        r.name@ == (match name {
            Some(n) => n@,
            None => "Unknown Controller"@,
        }),
        r.abs_axes@ == present_in(gamepad_axes(), supported_abs@),
        r.keys@ == present_in(probed_buttons(), supported_keys@),
{
    let name = match name {
        Some(n) => n.to_owned(),
        None => "Unknown Controller".to_owned(),
    };
    let axes = GAMEPAD_AXES;
    assert(axes@ =~= gamepad_axes());
    let mut abs_axes: Vec<u16> = Vec::new();
    let mut i: usize = 0;
    while i < 8
        invariant
            i <= 8,
            axes@ == gamepad_axes(),
            abs_axes@ == present_in(gamepad_axes().take(i as int), supported_abs@),
        decreases 8 - i,
    {
        let code = axes[i];
        assert(gamepad_axes().take(i + 1).drop_last() =~= gamepad_axes().take(i as int));
        if contains_code(supported_abs, code) {
            abs_axes.push(code);
        }
        i = i + 1;
    }
    assert(gamepad_axes().take(8) =~= gamepad_axes());
    let mut keys: Vec<u16> = Vec::new();
    let mut code: u16 = 288;
    while code <= 318
        invariant
            288 <= code <= 319,
            keys@ == present_in(probed_buttons().take(code - 288), supported_keys@),
        decreases 319 - code,
    {
        assert(probed_buttons().take(code - 287).drop_last() =~= probed_buttons().take(code - 288));
        if contains_code(supported_keys, code) {
            keys.push(code);
        }
        code = code + 1;
    }
    assert(probed_buttons().take(31) =~= probed_buttons());
    DeviceCaps { name, abs_axes, keys }
}

/// Whether a `/dev/input` entry is an event device node (`event*`).
pub fn is_event_node(file_name: &str) -> (r: bool)
    ensures
        r == "event"@.is_prefix_of(file_name@),
{
    starts_with(file_name, "event")
}

/// Controllers ordered by their device node path.
pub open spec fn sorted_by_path(s: Seq<DiscoveredController>) -> bool {
    forall|i: int, j: int|
        0 <= i < j < s.len() ==> lex_le(#[trigger] s[i].device_path@, #[trigger] s[j].device_path@)
}

/// Where `x` enters the sorted list `s`: after every controller whose path
/// sorts before or equal to the path of `x`.
pub open spec fn insertion_point(s: Seq<DiscoveredController>, x: DiscoveredController) -> int
    decreases s.len(),
{
    if s.len() == 0 {
        0
    } else if lex_le(s[0].device_path@, x.device_path@) {
        1 + insertion_point(s.drop_first(), x)
    } else {
        0
    }
}

/// `s` ordered by path, where controllers with equal paths keep the order
/// they had in `s`: each controller in turn is placed after every one
/// already placed whose path sorts before or equal to its own.
pub open spec fn stable_sorted(s: Seq<DiscoveredController>) -> Seq<DiscoveredController>
    decreases s.len(),
{
    if s.len() == 0 {
        s
    } else {
        let r = stable_sorted(s.drop_last());
        r.insert(insertion_point(r, s.last()), s.last())
    }
}

proof fn lemma_insertion_point(s: Seq<DiscoveredController>, x: DiscoveredController, p: int)
    requires
        0 <= p <= s.len(),
        forall|k: int| 0 <= k < p ==> lex_le(#[trigger] s[k].device_path@, x.device_path@),
        p < s.len() ==> !lex_le(s[p].device_path@, x.device_path@),
    ensures
        insertion_point(s, x) == p,
    decreases p,
{
    if p > 0 {
        assert(lex_le(s[0].device_path@, x.device_path@));
        assert forall|k: int| 0 <= k < p - 1 implies lex_le(
            #[trigger] s.drop_first()[k].device_path@,
            x.device_path@,
        ) by {
            assert(s.drop_first()[k] == s[k + 1]);
        }
        lemma_insertion_point(s.drop_first(), x, p - 1);
    }
}

/// Sort controllers by device node path; equal paths keep their order.
pub fn sort_by_device_path(controllers: Vec<DiscoveredController>) -> (r: Vec<
    DiscoveredController,
>)
    ensures
        r@ == stable_sorted(controllers@),
        sorted_by_path(r@),
        r@.to_multiset() == controllers@.to_multiset(),
{
    broadcast use vstd::seq_lib::group_to_multiset_ensures;
    broadcast use vstd::multiset::group_multiset_axioms;

    let mut input = controllers;
    let mut out: Vec<DiscoveredController> = Vec::new();
    let ghost mut done: int = 0;
    proof {
        vstd::seq_lib::to_multiset_len(out@);
        assert(out@.to_multiset() =~= vstd::multiset::Multiset::empty());
        assert(out@.to_multiset().add(input@.to_multiset()) =~= controllers@.to_multiset());
        assert(controllers@.take(0) =~= Seq::<DiscoveredController>::empty());
        assert(controllers@.skip(0) =~= controllers@);
    }
    while input.len() > 0
        invariant
            sorted_by_path(out@),
            out@.to_multiset().add(input@.to_multiset()) == controllers@.to_multiset(),
            0 <= done <= controllers@.len(),
            input@ == controllers@.skip(done),
            out@ == stable_sorted(controllers@.take(done)),
        decreases input.len(),
    {
        let ghost before_in = input@;
        let ghost before_out = out@;
        let item = input.remove(0);
        proof {
            assert(item == controllers@[done]);
            assert(controllers@.take(done + 1).drop_last() =~= controllers@.take(done));
            assert(controllers@.take(done + 1).last() == item);
        }
        let mut p: usize = 0;
        while p < out.len() && str_le(out[p].device_path.as_str(), item.device_path.as_str())
            invariant
                out@ == before_out,
                p <= out.len(),
                forall|k: int| 0 <= k < p ==> lex_le(#[trigger] out@[k].device_path@, item.device_path@),
            decreases out.len() - p,
        {
            p = p + 1;
        }
        proof {
            if p < out.len() {
                lemma_lex_total(out@[p as int].device_path@, item.device_path@);
            }
            assert forall|k: int| p <= k < out@.len() implies lex_le(item.device_path@, #[trigger] out@[k].device_path@) by {
                lemma_lex_total(out@[p as int].device_path@, item.device_path@);
                if k > p {
                    lemma_lex_trans(item.device_path@, out@[p as int].device_path@, out@[k].device_path@);
                }
            }
        }
        proof {
            lemma_insertion_point(before_out, item, p as int);
        }
        out.insert(p, item);
        proof {
            assert(input@ =~= controllers@.skip(done + 1));
            done = done + 1;
            let s = out@;
            assert forall|i: int, j: int| 0 <= i < j < s.len() implies lex_le(#[trigger] s[i].device_path@, #[trigger] s[j].device_path@) by {
                if i < p && j == p {
                } else if i == p && j > p {
                    assert(s[j] == before_out[j - 1]);
                } else if i < p && j > p {
                    assert(s[j] == before_out[j - 1]);
                } else if j < p {
                } else {
                    assert(s[i] == before_out[i - 1]);
                    assert(s[j] == before_out[j - 1]);
                }
            }
            vstd::seq_lib::to_multiset_remove(before_in, 0);
            vstd::seq_lib::to_multiset_insert(before_out, p as int, item);
            vstd::seq_lib::to_multiset_contains(before_in, before_in[0]);
            assert(out@.to_multiset().add(input@.to_multiset()) =~= before_out.to_multiset().add(before_in.to_multiset()));
        }
    }
    proof {
        assert(controllers@.take(done) =~= controllers@);
    }
    out
}

} // verus!
