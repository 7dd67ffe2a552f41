//! `link update`: changes what a link is pinned to.
use vstd::prelude::*;
use crate::error::{LoreError, Result};
use crate::events::{any_of_kind, check_stream, has_kind, is_stream_failure, EventKind, EventStream};

verus! {

/// Arguments of `link update`.
#[derive(Debug, Clone)]
pub struct UpdateArgs {
    pub link_path: String,
    /// The new pin; empty for none.
    pub pin: String,
}

/// The engine's arguments of `link update`.
#[derive(Debug)]
pub struct LoreLinkUpdateArgs {
    pub link_path: String,
    pub pin: String,
}

impl UpdateArgs {
    /// The engine's arguments.
    pub fn into_lore(self) -> (r: LoreLinkUpdateArgs)
        ensures
            r.link_path == self.link_path,
            r.pin == self.pin,
    {
        LoreLinkUpdateArgs { link_path: self.link_path, pin: self.pin }
    }
}

/// The link updated.
#[derive(Debug, Clone)]
pub struct UpdateResult {
    pub link_path: String,
}

/// The result of `link update`: the link path asked for when a `LinkChange`
/// event came, and a parse error otherwise.
pub fn update_from_events(link_path: String, stream: &EventStream, status: &str) -> (r: Result<UpdateResult>)
    ensures
        !stream.ok ==> is_stream_failure(r, *stream, "link update"@, status@),
        stream.ok && has_kind(stream.events@, EventKind::LinkChange) ==> (r matches Ok(res) && res.link_path == link_path),
        stream.ok && !has_kind(stream.events@, EventKind::LinkChange) ==> (r matches Err(LoreError::Parse(m))
            && m@ == "link update succeeded but no LinkChange event emitted"@),
{
    if let Err(e) = check_stream(stream, "link update", status) {
        return Err(e);
    }
    if !any_of_kind(&stream.events, EventKind::LinkChange) {
        return Err(LoreError::Parse(String::from_str("link update succeeded but no LinkChange event emitted")));
    }
    Ok(UpdateResult { link_path })
}

} // verus!
