//! The capability model: resources, grants, and the matching rule that
//! authorises every operation.

pub mod check;
pub mod defs;
pub mod types;
