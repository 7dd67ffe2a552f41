//! Authentication operations.
pub mod clear;
pub mod list;
pub mod local_user_info;
