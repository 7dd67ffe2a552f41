//! `branch metadata_clear`: removes metadata keys from a branch.
use vstd::prelude::*;
use crate::error::Result;
use crate::events::{check_stream, is_stream_failure, EventStream};

verus! {

/// Arguments of `branch metadata_clear`.
#[derive(Debug, Clone)]
pub struct MetadataClearArgs {
    /// The branch; empty for the current one.
    pub branch: String,
    /// The keys removed.
    pub keys: Vec<String>,
}

/// The engine's arguments of `branch metadata_clear`.
#[derive(Debug)]
pub struct LoreBranchMetadataClearArgs {
    pub branch: String,
    pub keys: Vec<String>,
}

impl MetadataClearArgs {
    /// The engine's arguments.
    pub fn into_lore(self) -> (r: LoreBranchMetadataClearArgs)
        ensures
            r.branch == self.branch,
            r.keys == self.keys,
    {
        LoreBranchMetadataClearArgs { branch: self.branch, keys: self.keys }
    }
}

/// The branch and the keys removed from it.
#[derive(Debug, Clone)]
pub struct MetadataClearResult {
    pub branch: String,
    pub keys: Vec<String>,
}

/// The result of `branch metadata_clear`: the engine reports no event with
/// the keys, so a success echoes the branch and keys that were asked for.
pub fn metadata_clear_from_events(branch: String, keys: Vec<String>, stream: &EventStream, status: &str) -> (r: Result<MetadataClearResult>)
    ensures
        !stream.ok ==> is_stream_failure(r, *stream, "metadata_clear"@, status@),
        stream.ok ==> (r matches Ok(res) && res.branch == branch && res.keys == keys),
{
    if let Err(e) = check_stream(stream, "metadata_clear", status) {
        return Err(e);
    }
    Ok(MetadataClearResult { branch, keys })
}

} // verus!
