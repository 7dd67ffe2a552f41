//! `auth clear`: clears every stored authentication identity and token.
//!
//! The operation reports no result events; it succeeds or fails.
use vstd::prelude::*;
use crate::error::Result;
use crate::events::{check_stream, is_stream_failure, EventStream};

verus! {

/// Arguments of `auth clear`: none.
#[derive(Debug, Clone)]
pub struct ClearArgs {}

/// The engine's arguments of `auth clear`: none.
#[derive(Debug)]
pub struct LoreAuthClearArgs {}

impl ClearArgs {
    /// The engine's arguments.
    pub fn into_lore(self) -> (r: LoreAuthClearArgs) {
        LoreAuthClearArgs {}
    }
}

/// The outcome of `auth clear`, read off its event stream.
pub fn clear_from_events(stream: &EventStream, status: &str) -> (r: Result<()>)
    ensures
        !stream.ok ==> is_stream_failure(r, *stream, "clear"@, status@),
        stream.ok ==> r is Ok,
{
    check_stream(stream, "clear", status)
}

} // verus!
