//! Branch operations.
pub mod archive;
pub mod create;
pub mod info;
pub mod merge_abort;
pub mod merge_into;
pub mod protect;
pub mod push;
pub mod reset;
pub mod switch;
pub mod unprotect;
pub mod diff;
pub mod latest_list;
pub mod merge_resolve;
pub mod merge_restart;
pub mod merge_unresolve;
pub mod metadata_clear;
pub mod metadata_get;
pub mod metadata_set;
