//! UI-agnostic application state.

use vstd::prelude::*;

verus! {

pub struct AppState {
    config_dir: String,
}

impl AppState {
    /// The state of an application whose configuration lives in
    /// `config_dir`.
    pub fn new(config_dir: String) -> (r: Self)
        ensures
            r.spec_config_dir() == config_dir@,
    {
        AppState { config_dir }
    }

    pub closed spec fn spec_config_dir(&self) -> Seq<char> {
        self.config_dir@
    }

    pub fn config_dir(&self) -> (r: &str)
        ensures
            r@ == self.spec_config_dir(),
    {
        self.config_dir.as_str()
    }
}

} // verus!
