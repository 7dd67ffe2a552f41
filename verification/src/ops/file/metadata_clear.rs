//! `file metadata_clear`: removes every metadata entry of a file.
use vstd::prelude::*;
use crate::error::Result;
use crate::events::{check_stream, is_stream_failure, EventStream};

verus! {

/// Arguments of `file metadata_clear`.
#[derive(Debug, Clone)]
pub struct MetadataClearArgs {
    pub path: String,
}

/// The engine's arguments of `file metadata_clear`.
#[derive(Debug)]
pub struct LoreFileMetadataClearArgs {
    pub path: String,
}

impl MetadataClearArgs {
    /// The engine's arguments; the path is passed as given.
    pub fn into_lore(self) -> (r: LoreFileMetadataClearArgs)
        ensures
            r.path == self.path,
    {
        LoreFileMetadataClearArgs { path: self.path }
    }
}

/// The file cleared.
#[derive(Debug, Clone)]
pub struct MetadataClearResult {
    pub path: String,
}

/// The result of `file metadata_clear`: a success echoes the path asked for.
pub fn metadata_clear_from_events(path: String, stream: &EventStream, status: &str) -> (r: Result<MetadataClearResult>)
    ensures
        !stream.ok ==> is_stream_failure(r, *stream, "metadata_clear"@, status@),
        stream.ok ==> (r matches Ok(res) && res.path == path),
{
    if let Err(e) = check_stream(stream, "metadata_clear", status) {
        return Err(e);
    }
    Ok(MetadataClearResult { path })
}

} // verus!
