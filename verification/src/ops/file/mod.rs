//! File operations.
pub mod diff;
pub mod dirty;
pub mod dirty_copy;
pub mod dirty_move;
pub mod metadata_clear;
pub mod write;
pub mod dump;
pub mod hash;
pub mod history;
pub mod info;
pub mod obliterate;
pub mod reset;
pub mod reset_to_last_merged;
pub mod stage_merge;
pub mod stage_move;
pub mod unstage;
pub mod metadata_get;
pub mod metadata_list;
pub mod metadata_set;
pub mod stage;
