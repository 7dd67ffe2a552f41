//! Link operations: other repositories linked into this one.
pub mod add;
pub mod list;
pub mod list_staged;
pub mod remove;
pub mod update;
