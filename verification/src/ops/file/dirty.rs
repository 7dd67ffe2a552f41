//! `file dirty`: marks files as changed without scanning them.
use vstd::prelude::*;
use crate::error::Result;
use crate::events::{check_stream, is_stream_failure, EventStream};
use crate::paths::{resolved, resolve_paths};

verus! {

/// Arguments of `file dirty`.
#[derive(Debug, Clone)]
pub struct FileDirtyArgs {
    /// The files marked, relative to the repository root or absolute.
    pub paths: Vec<String>,
}

/// The engine's arguments of `file dirty`.
#[derive(Debug)]
pub struct LoreFileDirtyArgs {
    pub paths: Vec<String>,
}

impl FileDirtyArgs {
    /// The engine's arguments, with every path resolved against `repo_root`.
    pub fn into_lore(self, repo_root: &str) -> (r: LoreFileDirtyArgs)
        ensures
            r.paths.len() == self.paths.len(),
            forall|i: int| 0 <= i < self.paths.len() ==> #[trigger] r.paths[i]@ == resolved(repo_root@, self.paths[i]@),
    {
        LoreFileDirtyArgs { paths: resolve_paths(repo_root, &self.paths) }
    }
}

/// The files marked, as they were given.
#[derive(Debug, Clone)]
pub struct FileDirtyResult {
    pub paths: Vec<String>,
}

/// The result of `file dirty`: a success echoes the paths asked for.
pub fn dirty_from_events(paths: Vec<String>, stream: &EventStream, status: &str) -> (r: Result<FileDirtyResult>)
    ensures
        !stream.ok ==> is_stream_failure(r, *stream, "file dirty"@, status@),
        stream.ok ==> (r matches Ok(res) && res.paths == paths),
{
    if let Err(e) = check_stream(stream, "file dirty", status) {
        return Err(e);
    }
    Ok(FileDirtyResult { paths })
}

} // verus!
