//! What the user interface shows: the controller list entries, the mapping
//! control list and the position of the mapping view. The toolkit glue
//! turns these plain values into its own widgets.

use vstd::prelude::*;

use crate::config::model::{configured_controllers, controller_entry, AppConfig, ControllerConfig};
use crate::controllers::discovery::DiscoveredController;
use crate::controllers::identity::{IdentityStrength, IdentityView};
use crate::mapping::model::{
    control_at, control_instruction, control_label, control_name, layout_key, summary_text,
    ControlId, ControllerMapping, Layout, MappingView,
};
use crate::text::str_eq;

verus! {

/// One entry of the controller list.
#[derive(Debug, Clone, PartialEq)]
pub struct ControllerInfo {
    pub id: String,
    pub name: String,
    pub vid_pid: String,
    pub path: String,
    pub status: String,
    pub details: String,
}

/// One row of the mapping control list.
#[derive(Debug, Clone, PartialEq)]
pub struct MappingControlInfo {
    pub id: String,
    pub label: String,
    pub value: String,
}

/// The status line of a discovered controller, from its saved settings.
pub open spec fn status_text(entry: Option<bool>) -> Seq<char> {
    match entry {
        Some(true) => "Connected \u{2022} mapping active"@,
        Some(false) => "Connected"@,
        None => "Connected \u{2022} not configured"@,
    }
}

/// How an identity strength is described.
pub open spec fn strength_text(strength: IdentityStrength) -> Seq<char> {
    match strength {
        IdentityStrength::Serial => "USB serial number"@,
        IdentityStrength::PhysicalPath => "USB port path"@,
        IdentityStrength::Ephemeral => "Transient (no stable identity)"@,
    }
}

/// The warning shown for a controller that cannot be matched after
/// reconnecting.
pub open spec fn ephemeral_warning() -> Seq<char> {
    "This controller cannot be reliably matched after reconnecting, so a saved configuration will not be auto-applied to it.\n"@
}

/// The detail text of a discovered controller.
pub open spec fn details_text(i: IdentityView, device_path: Seq<char>) -> Seq<char> {
    "Name: "@ + i.name + "\n"@ + "VID:PID: "@ + i.vendor_id + ":"@ + i.product_id + "\n"@ + match i.serial {
        Some(serial) => "Serial: "@ + serial + "\n"@,
        None => ""@,
    } + match i.physical_path {
        Some(path) => "USB path: "@ + path + "\n"@,
        None => ""@,
    } + "Identity: "@ + strength_text(i.strength()) + "\n"@ + (if i.strength()
        == IdentityStrength::Ephemeral {
        ephemeral_warning()
    } else {
        ""@
    }) + "Device node: "@ + device_path + "\n"@
}

/// The saved `enabled` flag of the controller with identity `i`, if it has
/// saved settings. A controller without a stable identity is never matched
/// to saved settings, so it has none.
pub open spec fn saved_enabled(config: AppConfig, i: IdentityView) -> Option<bool> {
    if i.strength() != IdentityStrength::Ephemeral && configured_controllers(
        config.controllers,
    ).contains_key(i.id()) {
        Some(configured_controllers(config.controllers)[i.id()].enabled)
    } else {
        None
    }
}

/// `r` is the controller list entry of `d` under `config`: its id, name,
/// `VID:PID`, the stable USB path (or else the device node), the status
/// from the saved settings (none for a controller without a stable
/// identity) and the detail text.
pub open spec fn describes(r: ControllerInfo, d: DiscoveredController, config: AppConfig) -> bool {
    &&& r.id@ == d.identity@.id()
    &&& r.name@ == d.identity@.name
    &&& r.vid_pid@ == d.identity@.vendor_id + ":"@ + d.identity@.product_id
    &&& r.path@ == match d.identity@.physical_path {
        Some(path) => path,
        None => d.device_path@,
    }
    &&& r.status@ == status_text(saved_enabled(config, d.identity@))
    &&& r.details@ == details_text(d.identity@, d.device_path@)
}

/// Convert one discovered controller (plus its saved configuration) into the
/// entry shown in the controller list.
pub fn build_controller_info(discovered: &DiscoveredController, config: &AppConfig) -> (r:
    ControllerInfo)
    ensures
        describes(r, *discovered, *config),
{
    let identity = &discovered.identity;
    let id = identity.id();
    // A controller without a stable identity is never matched to saved
    // settings.
    let entry = if identity.is_persistent() {
        controller_entry(config, id.as_str())
    } else {
        None
    };
    let status = match entry {
        Some(entry) => if entry.enabled {
            "Connected \u{2022} mapping active"
        } else {
            "Connected"
        },
        None => "Connected \u{2022} not configured",
    };

    let mut vid_pid = identity.vendor_id.clone();
    vid_pid.append(":");
    vid_pid.append(identity.product_id.as_str());

    // Prefer the stable physical USB path; fall back to the transient device
    // node purely as a runtime hint.
    let path = match &identity.physical_path {
        Some(path) => path.clone(),
        None => discovered.device_path.clone(),
    };

    let mut details = "Name: ".to_owned();
    details.append(identity.name.as_str());
    details.append("\n");
    details.append("VID:PID: ");
    details.append(identity.vendor_id.as_str());
    details.append(":");
    details.append(identity.product_id.as_str());
    details.append("\n");
    match &identity.serial {
        Some(serial) => {
            details.append("Serial: ");
            details.append(serial.as_str());
            details.append("\n");
        },
        None => {
            details.append("");
        },
    }
    match &identity.physical_path {
        Some(physical) => {
            details.append("USB path: ");
            details.append(physical.as_str());
            details.append("\n");
        },
        None => {
            details.append("");
        },
    }
    let strength = match identity.strength() {
        IdentityStrength::Serial => "USB serial number",
        IdentityStrength::PhysicalPath => "USB port path",
        IdentityStrength::Ephemeral => "Transient (no stable identity)",
    };
    details.append("Identity: ");
    details.append(strength);
    details.append("\n");
    if !identity.is_persistent() {
        details.append(
            "This controller cannot be reliably matched after reconnecting, so a saved configuration will not be auto-applied to it.\n",
        );
    } else {
        details.append("");
    }
    details.append("Device node: ");
    details.append(discovered.device_path.as_str());
    details.append("\n");

    proof {
        assert(details@ =~= details_text(identity@, discovered.device_path@));
    }
    ControllerInfo {
        id,
        name: identity.name.clone(),
        vid_pid,
        path,
        status: status.to_owned(),
        details,
    }
}

/// Build the full list of entries for the discovered set, in order.
pub fn build_controller_infos(discovered: &[DiscoveredController], config: &AppConfig) -> (r: Vec<
    ControllerInfo,
>)
    ensures
        r@.len() == discovered@.len(),
        forall|i: int| 0 <= i < r@.len() ==> describes(#[trigger] r@[i], discovered@[i], *config),
{
    let mut out: Vec<ControllerInfo> = Vec::new();
    let mut i: usize = 0;
    while i < discovered.len()
        invariant
            i <= discovered@.len(),
            out@.len() == i,
            forall|k: int| 0 <= k < i ==> describes(#[trigger] out@[k], discovered@[k], *config),
        decreases discovered@.len() - i,
    {
        out.push(build_controller_info(&discovered[i], config));
        i = i + 1;
    }
    out
}

/// The position of the first discovered controller whose configuration key
/// is `id`.
pub fn find_discovered(discovered: &[DiscoveredController], id: &str) -> (r: Option<usize>)
    ensures
        match r {
            Some(k) => k < discovered@.len() && discovered@[k as int].identity@.id() == id@
                && forall|j: int| 0 <= j < k ==> #[trigger] discovered@[j].identity@.id() != id@,
            None => forall|j: int|
                0 <= j < discovered@.len() ==> #[trigger] discovered@[j].identity@.id() != id@,
        },
{
    let mut i: usize = 0;
    while i < discovered.len()
        invariant
            i <= discovered@.len(),
            forall|j: int| 0 <= j < i ==> #[trigger] discovered@[j].identity@.id() != id@,
        decreases discovered@.len() - i,
    {
        let candidate = discovered[i].identity.id();
        if str_eq(candidate.as_str(), id) {
            return Some(i);
        }
        i = i + 1;
    }
    None
}

/// What the settings panel shows for a selected controller: whether the
/// mapping is enabled, the virtual controller name and the layout key.
pub open spec fn spec_selection_settings(entry: Option<ControllerConfig>) -> (bool, Seq<char>, Seq<char>) {
    match entry {
        Some(e) => (e.enabled, e.virtual_name@, layout_key(e.layout)),
        None => (false, Seq::empty(), layout_key(Layout::Custom)),
    }
}

/// The settings panel values for a selected controller's saved settings:
/// disabled, unnamed and `custom` when there are none.
pub fn selection_settings(entry: Option<&ControllerConfig>) -> (r: (bool, String, &'static str))
    ensures
        (r.0, r.1@, r.2@) == spec_selection_settings(
            match entry {
                Some(e) => Some(*e),
                None => None,
            },
        ),
{
    match entry {
        Some(e) => (e.enabled, e.virtual_name.clone(), e.layout.key()),
        None => (false, String::new(), Layout::Custom.key()),
    }
}

/// Whether `row` shows the control at position `k` of `mapping`.
pub open spec fn shows_control(row: MappingControlInfo, mapping: MappingView, k: int) -> bool {
    &&& row.id@ == control_name(control_at(k))
    &&& row.label@ == control_label(control_at(k))
    &&& row.value@ == summary_text(mapping, control_at(k))
}

/// Build the list of the 21 mapping controls with their current assignment,
/// in capture order.
pub fn build_mapping_controls(mapping: &ControllerMapping) -> (r: Vec<MappingControlInfo>)
    ensures
        r@.len() == 21,
        forall|i: int| 0 <= i < 21 ==> shows_control(#[trigger] r@[i], mapping@, i),
{
    let mut out: Vec<MappingControlInfo> = Vec::new();
    let mut i: usize = 0;
    while i < 21
        invariant
            i <= 21,
            out@.len() == i,
            forall|k: int| 0 <= k < i ==> shows_control(#[trigger] out@[k], mapping@, k),
        decreases 21 - i,
    {
        let id = ControlId::at(i).unwrap();
        let row = MappingControlInfo {
            id: id.as_str().to_owned(),
            label: id.label().to_owned(),
            value: mapping.summary(id),
        };
        assert(shows_control(row, mapping@, i as int));
        out.push(row);
        i = i + 1;
    }
    out
}

/// What the mapping view shows for the control at a position.
#[derive(Debug, Clone, PartialEq)]
pub struct MappingPosition {
    pub control: ControlId,
    pub current_control: String,
    pub control_name: String,
    pub instruction: String,
    pub progress: i32,
    pub progress_total: i32,
}

/// The mapping view positioned at `index` (0-based; positions past the end
/// show the last control). The progress is `index + 1` converted to `i32`
/// as `as` converts it (keeping the low 32 bits).
pub fn show_control(index: usize) -> (r: MappingPosition)
    requires
        index < usize::MAX,
    ensures
        r.control == control_at(if index < 20 {
            index as int
        } else {
            20
        }),
        r.current_control@ == control_name(r.control),
        r.control_name@ == control_label(r.control),
        r.instruction@ == control_instruction(r.control),
        r.progress == (index + 1) as i32,
        r.progress_total == 21,
{
    let position = if index < 20 {
        index
    } else {
        20
    };
    let control = ControlId::at(position).unwrap();
    MappingPosition {
        control,
        current_control: control.as_str().to_owned(),
        control_name: control.label().to_owned(),
        instruction: control.instruction().to_owned(),
        progress: (index + 1) as i32,
        progress_total: 21,
    }
}

/// Where the mapping view goes when the user skips at `index`: the next
/// position, or nothing when it was the last one (the view closes).
pub fn skip_target(index: usize) -> (r: Option<usize>)
    ensures
        r == (if index < 20 {
            Some((index + 1) as usize)
        } else {
            None
        }),
{
    if index < 20 {
        Some(index + 1)
    } else {
        None
    }
}

/// Where the mapping view goes when the user picks the control named `id`.
pub fn jump_target(id: &str) -> (r: Option<usize>)
    ensures
        match r {
            Some(position) => position < 21 && control_name(control_at(position as int)) == id@,
            None => forall|c: ControlId| control_name(c) != id@,
        },
{
    match ControlId::from_str(id) {
        Some(control) => {
            proof {
                crate::mapping::model::lemma_capture_order_is_bijective();
            }
            Some(control.position())
        },
        None => None,
    }
}

} // verus!
