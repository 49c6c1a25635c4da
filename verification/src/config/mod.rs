//! Configuration: the versioned schema and the rules for where it is stored.

pub mod model;
pub mod storage;
