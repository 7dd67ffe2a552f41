//! `link remove`: removes a link.
use vstd::prelude::*;
use crate::error::{LoreError, Result};
use crate::events::{any_of_kind, check_stream, has_kind, is_stream_failure, EventKind, EventStream};
use crate::paths::{resolved, resolve_path};

verus! {

/// Arguments of `link remove`.
#[derive(Debug, Clone)]
pub struct RemoveArgs {
    /// The link removed, relative to the repository root or absolute.
    pub link_path: String,
}

/// The engine's arguments of `link remove`.
#[derive(Debug)]
pub struct LoreLinkRemoveArgs {
    pub link_path: String,
}

impl RemoveArgs {
    /// The engine's arguments, with the link path resolved against `repo_root`.
    pub fn into_lore(self, repo_root: &str) -> (r: LoreLinkRemoveArgs)
        ensures
            r.link_path@ == resolved(repo_root@, self.link_path@),
    {
        LoreLinkRemoveArgs { link_path: resolve_path(repo_root, self.link_path.as_str()) }
    }
}

/// The link removed.
#[derive(Debug, Clone)]
pub struct RemoveResult {
    pub link_path: String,
}

/// The result of `link remove`: the link path asked for when a `LinkChange`
/// event came, and a parse error otherwise.
pub fn remove_from_events(link_path: String, stream: &EventStream, status: &str) -> (r: Result<RemoveResult>)
    ensures
        !stream.ok ==> is_stream_failure(r, *stream, "link remove"@, status@),
        stream.ok && has_kind(stream.events@, EventKind::LinkChange) ==> (r matches Ok(res) && res.link_path == link_path),
        stream.ok && !has_kind(stream.events@, EventKind::LinkChange) ==> (r matches Err(LoreError::Parse(m))
            && m@ == "link remove succeeded but no LinkChange event emitted"@),
{
    if let Err(e) = check_stream(stream, "link remove", status) {
        return Err(e);
    }
    if !any_of_kind(&stream.events, EventKind::LinkChange) {
        return Err(LoreError::Parse(String::from_str("link remove succeeded but no LinkChange event emitted")));
    }
    Ok(RemoveResult { link_path })
}

} // verus!
