//! The controller mapping: typed model, capture state machine, runtime
//! translation, predefined layouts and the decisions of a live session.

pub mod detector;
pub mod layouts;
pub mod mapper;
pub mod model;
pub mod session;
