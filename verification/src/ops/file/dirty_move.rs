//! `file dirty_move`: records that a file was moved outside the engine.
use vstd::prelude::*;
use crate::error::Result;
use crate::events::{check_stream, is_stream_failure, EventStream};
use crate::paths::{resolved, resolve_path};

verus! {

/// Arguments of `file dirty_move`.
#[derive(Debug, Clone)]
pub struct FileDirtyMoveArgs {
    pub from_path: String,
    pub to_path: String,
}

/// The engine's arguments of `file dirty_move`.
#[derive(Debug)]
pub struct LoreFileDirtyMoveArgs {
    pub from_path: String,
    pub to_path: String,
}

impl FileDirtyMoveArgs {
    /// The engine's arguments, with both paths resolved against `repo_root`.
    pub fn into_lore(self, repo_root: &str) -> (r: LoreFileDirtyMoveArgs)
        ensures
            r.from_path@ == resolved(repo_root@, self.from_path@),
            r.to_path@ == resolved(repo_root@, self.to_path@),
    {
        LoreFileDirtyMoveArgs {
            from_path: resolve_path(repo_root, self.from_path.as_str()),
            to_path: resolve_path(repo_root, self.to_path.as_str()),
        }
    }
}

/// The paths recorded, as they were given.
#[derive(Debug, Clone)]
pub struct FileDirtyMoveResult {
    pub from_path: String,
    pub to_path: String,
}

/// The result of `file dirty_move`: a success echoes the paths asked for.
pub fn dirty_move_from_events(from_path: String, to_path: String, stream: &EventStream, status: &str) -> (r: Result<FileDirtyMoveResult>)
    ensures
        !stream.ok ==> is_stream_failure(r, *stream, "file dirty_move"@, status@),
        stream.ok ==> (r matches Ok(res) && res.from_path == from_path && res.to_path == to_path),
{
    if let Err(e) = check_stream(stream, "file dirty_move", status) {
        return Err(e);
    }
    Ok(FileDirtyMoveResult { from_path, to_path })
}

} // verus!
