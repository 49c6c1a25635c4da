//! Physical controllers: raw input events, axis metadata, stable identity and
//! classification of discovered devices.

pub mod discovery;
pub mod evdev;
pub mod identity;
