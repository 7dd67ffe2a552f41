//! File dependency operations.
pub mod dependency_add;
pub mod dependency_list;
