//! `file dirty_copy`: records that a file was copied outside the engine.
use vstd::prelude::*;
use crate::error::Result;
use crate::events::{check_stream, is_stream_failure, EventStream};
use crate::paths::{resolved, resolve_path};

verus! {

/// Arguments of `file dirty_copy`.
#[derive(Debug, Clone)]
pub struct FileDirtyCopyArgs {
    pub from_path: String,
    pub to_path: String,
}

/// The engine's arguments of `file dirty_copy`.
#[derive(Debug)]
pub struct LoreFileDirtyCopyArgs {
    pub from_path: String,
    pub to_path: String,
}

impl FileDirtyCopyArgs {
    /// The engine's arguments, with both paths resolved against `repo_root`.
    pub fn into_lore(self, repo_root: &str) -> (r: LoreFileDirtyCopyArgs)
        ensures
            r.from_path@ == resolved(repo_root@, self.from_path@),
            r.to_path@ == resolved(repo_root@, self.to_path@),
    {
        LoreFileDirtyCopyArgs {
            from_path: resolve_path(repo_root, self.from_path.as_str()),
            to_path: resolve_path(repo_root, self.to_path.as_str()),
        }
    }
}

/// The paths recorded, as they were given.
#[derive(Debug, Clone)]
pub struct FileDirtyCopyResult {
    pub from_path: String,
    pub to_path: String,
}

/// The result of `file dirty_copy`: a success echoes the paths asked for.
pub fn dirty_copy_from_events(from_path: String, to_path: String, stream: &EventStream, status: &str) -> (r: Result<FileDirtyCopyResult>)
    ensures
        !stream.ok ==> is_stream_failure(r, *stream, "file dirty_copy"@, status@),
        stream.ok ==> (r matches Ok(res) && res.from_path == from_path && res.to_path == to_path),
{
    if let Err(e) = check_stream(stream, "file dirty_copy", status) {
        return Err(e);
    }
    Ok(FileDirtyCopyResult { from_path, to_path })
}

} // verus!
