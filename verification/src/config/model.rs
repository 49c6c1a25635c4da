//! Versioned configuration schema.

use std::collections::BTreeMap;

use vstd::prelude::*;

use crate::controllers::identity::ControllerIdentity;
use crate::mapping::model::{ControllerMapping, Layout};

verus! {

/// Current configuration format version.
pub const CONFIG_VERSION: u32 = 1;

/// Root configuration document stored at
/// `~/.local/share/XXMapper/config.json`.
#[derive(Debug, PartialEq)]
pub struct AppConfig {
    /// Format version. Missing in legacy documents, treated as `0` so
    /// `migrate()` normalizes it.
    pub version: u32,
    /// Keyed by the stable controller identity key (`ControllerIdentity::id`).
    pub controllers: BTreeMap<String, ControllerConfig>,
}

/// Settings for one physical controller.
#[derive(Debug, PartialEq)]
pub struct ControllerConfig {
    pub identity: ControllerIdentity,
    /// Whether the Xbox mapping is active when the controller is present.
    pub enabled: bool,
    /// Name of the virtual Xbox controller. Empty means a default name.
    pub virtual_name: String,
    /// Predefined layout selected for this controller.
    pub layout: Layout,
    /// The typed mapping.
    pub mapping: ControllerMapping,
}

impl Default for AppConfig {
    fn default() -> (r: Self)
        ensures
            r.version == CONFIG_VERSION,
            r.controllers@ == Map::<String, ControllerConfig>::empty(),
            configured_controllers(r.controllers) == Map::<Seq<char>, ControllerConfig>::empty(),
    {
        let r = AppConfig { version: CONFIG_VERSION, controllers: BTreeMap::new() };
        assert(configured_controllers(r.controllers) =~= Map::<Seq<char>, ControllerConfig>::empty());
        r
    }
}

impl AppConfig {
    /// Migrate an older configuration to the current version.
    ///
    /// Missing fields are already defaulted when the document is read; this
    /// is the hook for future structural migrations. After this returns,
    /// `version` equals `CONFIG_VERSION` and the controllers are unchanged.
    pub fn migrate(&mut self)
        ensures
            final(self).version == CONFIG_VERSION,
            final(self).controllers == old(self).controllers,
    {
        if self.version >= CONFIG_VERSION {
            self.version = CONFIG_VERSION;
            return ;
        }
        // Version 0 never existed in releases; any document without a version
        // or with version 0 is treated as a fresh config with defaulted fields.
        self.version = CONFIG_VERSION;
    }
}

/// The controller settings a configuration holds, keyed by the characters
/// of their configuration key.
pub open spec fn configured_controllers(controllers: BTreeMap<String, ControllerConfig>) -> Map<
    Seq<char>,
    ControllerConfig,
> {
    Map::new(
        |k: Seq<char>| exists|key: String| controllers@.contains_key(key) && key@ == k,
        |k: Seq<char>|
            controllers@[choose|key: String| controllers@.contains_key(key) && key@ == k],
    )
}

/// The settings saved for the controller with configuration key `id`.
///
/// Trusted: calls `BTreeMap::get` with a `&str` key, which returns the value
/// stored under the `String` key with the same characters, or `None` when
/// there is none. The contract says that of the table of the map's entries.
#[verifier::external_body]
pub(crate) fn controller_entry<'a>(config: &'a AppConfig, id: &str) -> (r: Option<&'a ControllerConfig>)
    ensures
        match r {
            Some(entry) => configured_controllers(config.controllers).contains_key(id@)
                && configured_controllers(config.controllers)[id@] == *entry,
            None => !configured_controllers(config.controllers).contains_key(id@),
        },
{
    config.controllers.get(id)
}

} // verus!
