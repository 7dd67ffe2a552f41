//! `layer add`: mounts a path of another repository at a path of this one.
use vstd::prelude::*;
use crate::error::Result;
use crate::events::{check_stream, find_kind, first_of_kind, is_stream_failure, EventKind, EventStream, LoreEvent};
use crate::paths::{resolved, resolve_path};

verus! {

/// Arguments of `layer add`.
#[derive(Debug, Clone)]
pub struct LayerAddArgs {
    /// Where the layer is mounted, relative to the repository root or absolute.
    pub target_path: String,
    /// The repository the layer comes from.
    pub source_repository: String,
    /// The path of that repository mounted; empty for its root.
    pub source_path: String,
    /// Free-form metadata stored with the layer.
    pub metadata: String,
}

/// The engine's arguments of `layer add`.
#[derive(Debug)]
pub struct LoreLayerAddArgs {
    pub target_path: String,
    pub source_repository: String,
    pub source_path: String,
    pub metadata: String,
}

impl LayerAddArgs {
    /// The engine's arguments, with the target path resolved against `repo_root`.
    pub fn into_lore(self, repo_root: &str) -> (r: LoreLayerAddArgs)
        ensures
            r.target_path@ == resolved(repo_root@, self.target_path@),
            r.source_repository == self.source_repository,
            r.source_path == self.source_path,
            r.metadata == self.metadata,
    {
        LoreLayerAddArgs {
            target_path: resolve_path(repo_root, self.target_path.as_str()),
            source_repository: self.source_repository,
            source_path: self.source_path,
            metadata: self.metadata,
        }
    }
}

/// The layer added.
#[derive(Debug, Clone)]
pub struct LayerAddResult {
    pub target_path: String,
    pub source_repository: String,
    pub source_path: String,
    pub metadata: String,
    /// The revision that records the layer; empty when none was reported.
    pub revision: String,
}

/// The result `layer add` reports: what its first `LayerAdd` event says, or,
/// when it reported none, the layer that was asked for with no revision.
pub open spec fn layer_add_reported(requested: LayerAddArgs, evs: Seq<LoreEvent>, res: LayerAddResult) -> bool {
    match first_of_kind(evs, EventKind::LayerAdd) {
        Some(i) => evs[i] matches LoreEvent::LayerAdd(d) && res.target_path == d.target_path
            && res.source_repository == d.source_repository && res.source_path == d.source_path
            && res.metadata == d.metadata && res.revision == d.revision,
        None => res.target_path == requested.target_path && res.source_repository == requested.source_repository
            && res.source_path == requested.source_path && res.metadata == requested.metadata
            && res.revision@ == Seq::<char>::empty(),
    }
}

/// The result of `layer add`, read off its event stream; `requested` is the
/// layer that was asked for, as given.
pub fn layer_add_from_events(requested: LayerAddArgs, stream: &EventStream, status: &str) -> (r: Result<LayerAddResult>)
    ensures
        !stream.ok ==> is_stream_failure(r, *stream, "layer_add"@, status@),
        stream.ok ==> (r matches Ok(res) && layer_add_reported(requested, stream.events@, res)),
{
    if let Err(e) = check_stream(stream, "layer_add", status) {
        return Err(e);
    }
    if let Some(i) = find_kind(&stream.events, EventKind::LayerAdd) {
        if let LoreEvent::LayerAdd(d) = &stream.events[i] {
            return Ok(LayerAddResult {
                target_path: d.target_path.clone(),
                source_repository: d.source_repository.clone(),
                source_path: d.source_path.clone(),
                metadata: d.metadata.clone(),
                revision: d.revision.clone(),
            });
        }
    }
    Ok(LayerAddResult {
        target_path: requested.target_path,
        source_repository: requested.source_repository,
        source_path: requested.source_path,
        metadata: requested.metadata,
        revision: String::new(),
    })
}

} // verus!
