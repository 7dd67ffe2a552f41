//! `layer remove`: unmounts a layer.
use vstd::prelude::*;
use crate::error::Result;
use crate::events::{check_stream, is_stream_failure, EventStream};
use crate::global::{flag, flag_of};

verus! {

/// Arguments of `layer remove`.
#[derive(Debug, Clone)]
pub struct LayerRemoveArgs {
    pub target_path: String,
    pub source_repository: String,
    /// Also delete the layer's files.
    pub purge: bool,
}

/// The engine's arguments of `layer remove`.
#[derive(Debug)]
pub struct LoreLayerRemoveArgs {
    pub target_path: String,
    pub source_repository: String,
    pub purge: u8,
}

impl LayerRemoveArgs {
    /// The engine's arguments; the target path is passed as given.
    pub fn into_lore(self) -> (r: LoreLayerRemoveArgs)
        ensures
            r.target_path == self.target_path,
            r.source_repository == self.source_repository,
            r.purge == flag(self.purge),
    {
        LoreLayerRemoveArgs {
            target_path: self.target_path,
            source_repository: self.source_repository,
            purge: flag_of(self.purge),
        }
    }
}

/// The layer removed.
#[derive(Debug, Clone)]
pub struct LayerRemoveResult {
    pub target_path: String,
    pub source_repository: String,
}

/// The result of `layer remove`: a success echoes the layer that was asked
/// for, whether or not a `LayerRemove` event came.
pub fn layer_remove_from_events(target_path: String, source_repository: String, stream: &EventStream, status: &str) -> (r: Result<LayerRemoveResult>)
    ensures
        !stream.ok ==> is_stream_failure(r, *stream, "layer_remove"@, status@),
        stream.ok ==> (r matches Ok(res) && res.target_path == target_path
            && res.source_repository == source_repository),
{
    if let Err(e) = check_stream(stream, "layer_remove", status) {
        return Err(e);
    }
    Ok(LayerRemoveResult { target_path, source_repository })
}

} // verus!
