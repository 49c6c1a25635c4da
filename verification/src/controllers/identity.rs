//! Stable per-controller identity generation.
//!
//! Identity hierarchy (strict):
//!
//! 1. USB serial number (`ID_SERIAL_SHORT`) when a genuine stable serial is
//!    available.
//! 2. Otherwise the stable physical USB device path from udev (`ID_PATH`).
//! 3. Otherwise the controller has NO reliable persistent identity and must
//!    not automatically match a saved configuration.
//!
//! The human-readable controller name and the transient `/dev/input/eventN`
//! node are NEVER part of the identity. The udev `DEVPATH`/`inputN` numbers
//! are NOT stable across reconnects/reboots and are never used as identity
//! either.
//!
//! The semantic identity key (`stable_key`) is kept distinct from the
//! filesystem-safe `id()`/`filename()` representation: sanitization is applied
//! only to produce file/configuration keys, never to define the identity
//! itself.

use std::collections::HashMap;

use vstd::prelude::*;

use crate::text::{blank, is_blank, is_file_safe, sanitize, sanitized};

verus! {

/// How strongly a controller identity can be established.
#[derive(Debug, Clone, Copy, PartialEq, Eq, Structural, PartialOrd, Ord)]
pub enum IdentityStrength {
    /// USB serial number available.
    Serial,
    /// Stable physical USB path (`ID_PATH`) available.
    PhysicalPath,
    /// Neither serial nor physical path: the device cannot be reliably
    /// identified across reconnects and must not auto-match saved config.
    Ephemeral,
}

/// Stable identity of one physical controller.
#[derive(Debug, PartialEq, Eq)]
pub struct ControllerIdentity {
    /// udev `ID_VENDOR_ID`, lowercase hex, e.g. `"0079"`.
    pub vendor_id: String,
    /// udev `ID_MODEL_ID`, lowercase hex, e.g. `"0006"`.
    pub product_id: String,
    /// Genuine USB serial number, when one exists.
    pub serial: Option<String>,
    /// Stable physical USB path (`ID_PATH`), when one exists.
    pub physical_path: Option<String>,
    /// Human-readable name. Informational only; never part of the identity.
    pub name: String,
}

/// The characters of a `ControllerIdentity`.
pub struct IdentityView {
    pub vendor_id: Seq<char>,
    pub product_id: Seq<char>,
    pub serial: Option<Seq<char>>,
    pub physical_path: Option<Seq<char>>,
    pub name: Seq<char>,
}

/// The characters of an optional string.
pub open spec fn opt_chars(o: Option<String>) -> Option<Seq<char>> {
    match o {
        Some(s) => Some(s@),
        None => None,
    }
}

impl View for ControllerIdentity {
    type V = IdentityView;

    open spec fn view(&self) -> IdentityView {
        IdentityView {
            vendor_id: self.vendor_id@,
            product_id: self.product_id@,
            serial: opt_chars(self.serial),
            physical_path: opt_chars(self.physical_path),
            name: self.name@,
        }
    }
}

/// Whether an optional string is present and not blank.
pub open spec fn present(o: Option<Seq<char>>) -> bool {
    match o {
        Some(s) => !blank(s),
        None => false,
    }
}

/// `{vendor}-{product}`.
pub open spec fn vid_pid_key(i: IdentityView) -> Seq<char> {
    i.vendor_id + "-"@ + i.product_id
}

impl IdentityView {
    pub open spec fn strength(self) -> IdentityStrength {
        if present(self.serial) {
            IdentityStrength::Serial
        } else if present(self.physical_path) {
            IdentityStrength::PhysicalPath
        } else {
            IdentityStrength::Ephemeral
        }
    }

    /// `{vendor}-{product}-{serial}` when a serial is present, otherwise
    /// `{vendor}-{product}-{physical-path}` when a path is present, otherwise
    /// nothing.
    pub open spec fn stable_key(self) -> Option<Seq<char>> {
        match self.strength() {
            IdentityStrength::Serial => Some(vid_pid_key(self) + "-"@ + self.serial->0),
            IdentityStrength::PhysicalPath => Some(vid_pid_key(self) + "-"@ + self.physical_path->0),
            IdentityStrength::Ephemeral => None,
        }
    }

    /// The sanitized stable key, or the sanitized `{vendor}-{product}` key of
    /// an ephemeral identity.
    pub open spec fn id(self) -> Seq<char> {
        match self.stable_key() {
            Some(key) => sanitized(key),
            None => sanitized(vid_pid_key(self)),
        }
    }

    pub open spec fn filename(self) -> Seq<char> {
        self.id() + ".json"@
    }
}

fn clone_opt_string(o: &Option<String>) -> (r: Option<String>)
    ensures
        r == *o,
{
    match o {
        Some(s) => Some(s.clone()),
        None => None,
    }
}

impl Clone for ControllerIdentity {
    fn clone(&self) -> (r: Self)
        ensures
            r == *self,
    {
        ControllerIdentity {
            vendor_id: self.vendor_id.clone(),
            product_id: self.product_id.clone(),
            serial: clone_opt_string(&self.serial),
            physical_path: clone_opt_string(&self.physical_path),
            name: self.name.clone(),
        }
    }
}

fn is_present(o: &Option<String>) -> (r: bool)
    ensures
        r == present(opt_chars(*o)),
{
    match o {
        Some(s) => !is_blank(s.as_str()),
        None => false,
    }
}

impl ControllerIdentity {
    /// The strength of this identity.
    pub fn strength(&self) -> (r: IdentityStrength)
        ensures
            r == self@.strength(),
    {
        if is_present(&self.serial) {
            IdentityStrength::Serial
        } else if is_present(&self.physical_path) {
            IdentityStrength::PhysicalPath
        } else {
            IdentityStrength::Ephemeral
        }
    }

    /// Whether this controller can be reliably matched to a saved
    /// configuration.
    pub fn is_persistent(&self) -> (r: bool)
        ensures
            r == (self@.strength() != IdentityStrength::Ephemeral),
    {
        self.strength() != IdentityStrength::Ephemeral
    }

    fn vid_pid(&self) -> (r: String)
        ensures
            r@ == vid_pid_key(self@),
    {
        let mut key = self.vendor_id.clone();
        key.append("-");
        key.append(self.product_id.as_str());
        key
    }

    /// The semantic stable identity key.
    ///
    /// - serial present: `{vendor}-{product}-{serial}`
    /// - otherwise path: `{vendor}-{product}-{physical-path}`
    /// - otherwise: `None` (ephemeral, must not auto-match saved config).
    ///
    /// The key never contains `/dev/input/eventN`, the udev `DEVPATH`, or the
    /// controller name.
    pub fn stable_key(&self) -> (r: Option<String>)
        ensures
            opt_chars(r) == self@.stable_key(),
    {
        match self.strength() {
            IdentityStrength::Serial => match &self.serial {
                Some(serial) => {
                    let mut key = self.vid_pid();
                    key.append("-");
                    key.append(serial.as_str());
                    Some(key)
                },
                None => None,
            },
            IdentityStrength::PhysicalPath => match &self.physical_path {
                Some(path) => {
                    let mut key = self.vid_pid();
                    key.append("-");
                    key.append(path.as_str());
                    Some(key)
                },
                None => None,
            },
            IdentityStrength::Ephemeral => None,
        }
    }

    /// Filesystem-safe identity used as the configuration key.
    ///
    /// For persistent identities this is the sanitized `stable_key`. For
    /// ephemeral identities it is a VID/PID-only key; such controllers are
    /// never auto-matched to saved configurations (see `is_persistent`).
    pub fn id(&self) -> (r: String)
        ensures
            r@ == self@.id(),
    {
        match self.stable_key() {
            Some(key) => sanitize(key.as_str()),
            None => sanitize(self.vid_pid().as_str()),
        }
    }

    /// A filename-safe variant of `id()`, suitable for per-controller files.
    pub fn filename(&self) -> (r: String)
        ensures
            r@ == self@.filename(),
    {
        let mut name = self.id();
        name.append(".json");
        name
    }
}

/// The properties a udev device reports, by name.
pub uninterp spec fn property_table(props: HashMap<String, String>) -> Map<Seq<char>, Seq<char>>;

/// Looks a udev property up by name.
///
/// Trusted: calls `HashMap::get` with a `&str` key, which returns the value
/// stored under the `String` key with the same characters, or `None` when
/// there is none. The contract says that of the table of the map's entries.
#[verifier::external_body]
fn property<'a>(props: &'a HashMap<String, String>, key: &str) -> (r: Option<&'a String>)
    ensures
        match r {
            Some(v) => property_table(*props).contains_key(key@) && property_table(*props)[key@]
                == v@,
            None => !property_table(*props).contains_key(key@),
        },
{
    props.get(key)
}

/// The value of `key` in a property table.
pub open spec fn lookup(t: Map<Seq<char>, Seq<char>>, key: Seq<char>) -> Option<Seq<char>> {
    if t.contains_key(key) {
        Some(t[key])
    } else {
        None
    }
}

/// The value of `key`, or `default` when it is missing.
pub open spec fn lookup_or(t: Map<Seq<char>, Seq<char>>, key: Seq<char>, default: Seq<char>) -> Seq<char> {
    if t.contains_key(key) {
        t[key]
    } else {
        default
    }
}

/// The value of `key` when it is present and not blank.
pub open spec fn lookup_present(t: Map<Seq<char>, Seq<char>>, key: Seq<char>) -> Option<Seq<char>> {
    if t.contains_key(key) && !blank(t[key]) {
        Some(t[key])
    } else {
        None
    }
}

/// The identity a property table describes, with `default_name` used when
/// it has no `NAME`.
pub open spec fn identity_from_table(
    t: Map<Seq<char>, Seq<char>>,
    default_name: Seq<char>,
) -> IdentityView {
    IdentityView {
        vendor_id: lookup_or(t, "ID_VENDOR_ID"@, "0000"@),
        product_id: lookup_or(t, "ID_MODEL_ID"@, "0000"@),
        serial: lookup_present(t, "ID_SERIAL_SHORT"@),
        physical_path: lookup_present(t, "ID_PATH"@),
        name: lookup_or(t, "NAME"@, default_name),
    }
}

/// The value of a udev property, or `default` when it is missing.
pub fn property_or_default(props: &HashMap<String, String>, key: &str, default: &str) -> (r: String)
    ensures
        r@ == lookup_or(property_table(*props), key@, default@),
{
    match property(props, key) {
        Some(value) => value.clone(),
        None => default.to_owned(),
    }
}

fn property_present(props: &HashMap<String, String>, key: &str) -> (r: Option<String>)
    ensures
        opt_chars(r) == lookup_present(property_table(*props), key@),
{
    match property(props, key) {
        Some(value) => if is_blank(value.as_str()) {
            None
        } else {
            Some(value.clone())
        },
        None => None,
    }
}

/// Build an identity from udev-style properties, naming it `default_name`
/// when there is no `NAME` property.
pub fn identity_with_default_name(props: &HashMap<String, String>, default_name: &str) -> (r:
    ControllerIdentity)
    ensures
        r@ == identity_from_table(property_table(*props), default_name@),
{
    ControllerIdentity {
        vendor_id: property_or_default(props, "ID_VENDOR_ID", "0000"),
        product_id: property_or_default(props, "ID_MODEL_ID", "0000"),
        serial: property_present(props, "ID_SERIAL_SHORT"),
        physical_path: property_present(props, "ID_PATH"),
        name: property_or_default(props, "NAME", default_name),
    }
}

/// Build an identity from udev-style properties. The map is keyed by udev
/// property names (`ID_VENDOR_ID`, `ID_MODEL_ID`, `ID_SERIAL_SHORT`,
/// `ID_PATH`, `NAME`).
pub fn identity_from_properties(props: &HashMap<String, String>) -> (r: ControllerIdentity)
    ensures
        r@ == identity_from_table(property_table(*props), "Unknown Controller"@),
{
    identity_with_default_name(props, "Unknown Controller")
}

} // verus!

verus! {

/// Only `ID_VENDOR_ID`, `ID_MODEL_ID`, `ID_SERIAL_SHORT` and `ID_PATH` decide
/// an identity: the name, `DEVPATH` and every other property never change
/// its strength, stable key, id or file name.
pub proof fn law_identity_uses_only_identity_properties(
    t1: Map<Seq<char>, Seq<char>>,
    t2: Map<Seq<char>, Seq<char>>,
    name1: Seq<char>,
    name2: Seq<char>,
)
    requires
        lookup(t1, "ID_VENDOR_ID"@) == lookup(t2, "ID_VENDOR_ID"@),
        lookup(t1, "ID_MODEL_ID"@) == lookup(t2, "ID_MODEL_ID"@),
        lookup(t1, "ID_SERIAL_SHORT"@) == lookup(t2, "ID_SERIAL_SHORT"@),
        lookup(t1, "ID_PATH"@) == lookup(t2, "ID_PATH"@),
    ensures
        identity_from_table(t1, name1).strength() == identity_from_table(t2, name2).strength(),
        identity_from_table(t1, name1).stable_key() == identity_from_table(t2, name2).stable_key(),
        identity_from_table(t1, name1).id() == identity_from_table(t2, name2).id(),
        identity_from_table(t1, name1).filename() == identity_from_table(t2, name2).filename(),
{
    let a = identity_from_table(t1, name1);
    let b = identity_from_table(t2, name2);
    assert(a.vendor_id == b.vendor_id);
    assert(a.product_id == b.product_id);
    assert(a.serial == b.serial);
    assert(a.physical_path == b.physical_path);
}

/// A controller has a stable key exactly when it is not ephemeral.
pub proof fn law_ephemeral_has_no_stable_key(i: IdentityView)
    ensures
        (i.strength() == IdentityStrength::Ephemeral) <==> i.stable_key() is None,
{
}

/// A serial number, when present, decides the stable key on its own: the
/// same controller keeps its identity on any port.
pub proof fn law_serial_takes_precedence(a: IdentityView, b: IdentityView)
    requires
        a.vendor_id == b.vendor_id,
        a.product_id == b.product_id,
        a.serial == b.serial,
        present(a.serial),
    ensures
        a.stable_key() == b.stable_key(),
        a.stable_key() is Some,
{
}

/// Two identical controllers without serial numbers on different ports have
/// different stable keys.
pub proof fn law_distinct_ports_distinct_keys(a: IdentityView, b: IdentityView)
    requires
        a.vendor_id == b.vendor_id,
        a.product_id == b.product_id,
        !present(a.serial),
        !present(b.serial),
        present(a.physical_path),
        present(b.physical_path),
        a.physical_path != b.physical_path,
    ensures
        a.stable_key() != b.stable_key(),
{
    let prefix = vid_pid_key(a) + "-"@;
    let pa = a.physical_path->0;
    let pb = b.physical_path->0;
    assert((prefix + pa).skip(prefix.len() as int) =~= pa);
    assert((prefix + pb).skip(prefix.len() as int) =~= pb);
}

/// The configuration id holds only file-safe characters, and the file name
/// is that id followed by `.json`.
pub proof fn law_id_is_file_safe(i: IdentityView)
    ensures
        forall|k: int| 0 <= k < i.id().len() ==> is_file_safe(#[trigger] i.id()[k]),
        i.filename() == i.id() + ".json"@,
{
    reveal_strlit("_");
}

} // verus!
