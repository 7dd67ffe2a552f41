//! `link add`: links another repository at a path of this one.
use vstd::prelude::*;
use crate::error::{LoreError, Result};
use crate::events::{any_of_kind, check_stream, has_kind, is_stream_failure, EventKind, EventStream};
use crate::global::{flag, flag_of};

verus! {

/// Arguments of `link add`.
#[derive(Debug, Clone)]
pub struct AddArgs {
    /// The repository linked.
    pub link: String,
    /// Where it is linked.
    pub link_path: String,
    /// The path of the linked repository that is linked; `/` by default.
    pub source_path: String,
    /// The revision or branch the link is pinned to; empty for none.
    pub pin: String,
    /// Keep the link on one branch.
    pub disable_branching: bool,
}

/// The path of the linked repository that a link takes when none is given:
/// its root, `/`.
pub fn default_source_path() -> (r: String)
    ensures
        r@ == "/"@,
{
    String::from_str("/")
}

/// The engine's arguments of `link add`.
#[derive(Debug)]
pub struct LoreLinkAddArgs {
    pub link: String,
    pub link_path: String,
    pub source_path: String,
    pub pin: String,
    pub disable_branching: u8,
}

impl AddArgs {
    /// The engine's arguments.
    pub fn into_lore(self) -> (r: LoreLinkAddArgs)
        ensures
            r.link == self.link,
            r.link_path == self.link_path,
            r.source_path == self.source_path,
            r.pin == self.pin,
            r.disable_branching == flag(self.disable_branching),
    {
        LoreLinkAddArgs {
            link: self.link,
            link_path: self.link_path,
            source_path: self.source_path,
            pin: self.pin,
            disable_branching: flag_of(self.disable_branching),
        }
    }
}

/// The link added.
#[derive(Debug, Clone)]
pub struct AddResult {
    pub link_path: String,
}

/// The result of `link add`: the link path asked for when a `LinkChange`
/// event came, and a parse error otherwise.
pub fn add_from_events(link_path: String, stream: &EventStream, status: &str) -> (r: Result<AddResult>)
    ensures
        !stream.ok ==> is_stream_failure(r, *stream, "link add"@, status@),
        stream.ok && has_kind(stream.events@, EventKind::LinkChange) ==> (r matches Ok(res) && res.link_path == link_path),
        stream.ok && !has_kind(stream.events@, EventKind::LinkChange) ==> (r matches Err(LoreError::Parse(m))
            && m@ == "link add succeeded but no LinkChange event emitted"@),
{
    if let Err(e) = check_stream(stream, "link add", status) {
        return Err(e);
    }
    if !any_of_kind(&stream.events, EventKind::LinkChange) {
        return Err(LoreError::Parse(String::from_str("link add succeeded but no LinkChange event emitted")));
    }
    Ok(AddResult { link_path })
}

} // verus!
