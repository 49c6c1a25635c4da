//! Verified core of XXMapper: the typed controller-mapping model, the
//! press/release capture state machine, the runtime translation of physical
//! events into virtual Xbox events, controller identity and the
//! configuration schema.

pub mod config;
pub mod controllers;
pub mod mapping;
pub mod state;
pub mod text;
pub mod ui;
pub mod xbox;
