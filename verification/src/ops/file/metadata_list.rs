//! `file metadata_list`: every metadata entry of a file.
use vstd::prelude::*;
use crate::error::Result;
use crate::events::{
    check_stream, is_stream_failure, lemma_fold_step, lemma_take_all, of_kind, EventKind, EventStream, LoreEvent,
    MetadataValue,
};
use crate::ops::file::metadata_get::{metadata_text, metadata_value_text};

verus! {

/// Arguments of `file metadata_list`.
#[derive(Debug, Clone)]
pub struct MetadataListArgs {
    pub path: String,
    /// The revision; empty for the current one.
    pub revision: String,
}

/// The engine's arguments of `file metadata_list`.
#[derive(Debug)]
pub struct LoreFileMetadataListArgs {
    pub path: String,
    pub revision: String,
}

impl MetadataListArgs {
    /// The engine's arguments; the path is passed as given.
    pub fn into_lore(self) -> (r: LoreFileMetadataListArgs)
        ensures
            r.path == self.path,
            r.revision == self.revision,
    {
        LoreFileMetadataListArgs { path: self.path, revision: self.revision }
    }
}

/// The type of a metadata value.
#[derive(Debug, Clone, Copy, PartialEq, Eq, Structural)]
pub enum MetadataEntryType {
    Address,
    Boolean,
    /// A block of raw bytes, base64-encoded in the value field.
    Binary,
    Context,
    Hash,
    Numeric,
    String,
}

/// A metadata entry, its value shown as text.
#[derive(Debug, Clone)]
pub struct MetadataEntry {
    pub key: String,
    pub value: String,
    pub entry_type: MetadataEntryType,
}

/// The metadata entries of the file.
#[derive(Debug, Clone)]
pub struct MetadataListResult {
    pub entries: Vec<MetadataEntry>,
}

/// The type of a metadata value.
pub open spec fn entry_type_of(v: MetadataValue) -> MetadataEntryType {
    match v {
        MetadataValue::Address(_) => MetadataEntryType::Address,
        MetadataValue::Boolean(_) => MetadataEntryType::Boolean,
        MetadataValue::Binary(_) => MetadataEntryType::Binary,
        MetadataValue::Context(_) => MetadataEntryType::Context,
        MetadataValue::Hash(_) => MetadataEntryType::Hash,
        MetadataValue::Numeric(_) => MetadataEntryType::Numeric,
        MetadataValue::String(_) => MetadataEntryType::String,
    }
}

/// A metadata entry's type names the kind of value it holds: a string as
/// a string, a number as numeric, a boolean as boolean, and likewise for
/// hashes, addresses, contexts and binary values. `t` is the type
/// `convert_lore_metadata` returns for the value `v`.
pub proof fn lemma_entry_type_names_the_value(v: MetadataValue, t: MetadataEntryType)
    requires
        t == entry_type_of(v),
    ensures
        v is String <==> t is String,
        v is Numeric <==> t is Numeric,
        v is Boolean <==> t is Boolean,
        v is Hash <==> t is Hash,
        v is Address <==> t is Address,
        v is Context <==> t is Context,
        v is Binary <==> t is Binary,
{
}

/// A metadata value shown as text, with its type. It never fails.
pub fn convert_lore_metadata(v: &MetadataValue) -> (r: Result<(String, MetadataEntryType)>)
    ensures
        r matches Ok((s, t)) && s@ == metadata_text(*v) && t == entry_type_of(*v),
{
    let text = match metadata_value_text(v) {
        Ok(s) => s,
        Err(e) => return Err(e),
    };
    let t = match v {
        MetadataValue::Address(_) => MetadataEntryType::Address,
        MetadataValue::Boolean(_) => MetadataEntryType::Boolean,
        MetadataValue::Binary(_) => MetadataEntryType::Binary,
        MetadataValue::Context(_) => MetadataEntryType::Context,
        MetadataValue::Hash(_) => MetadataEntryType::Hash,
        MetadataValue::Numeric(_) => MetadataEntryType::Numeric,
        MetadataValue::String(_) => MetadataEntryType::String,
    };
    Ok((text, t))
}

/// True when `x` is the entry that event `e` reports.
pub open spec fn list_entry_of(x: MetadataEntry, e: LoreEvent) -> bool {
    e matches LoreEvent::Metadata(d) && x.key == d.key && x.value@ == metadata_text(d.value)
        && x.entry_type == entry_type_of(d.value)
}

/// True when `xs` are the entries that `evs` report, in order.
pub open spec fn list_entries_of(xs: Seq<MetadataEntry>, evs: Seq<LoreEvent>) -> bool {
    xs.len() == evs.len() && forall|j: int| 0 <= j < evs.len() ==> list_entry_of(#[trigger] xs[j], evs[j])
}

/// The result of `file metadata_list`, read off its event stream: one entry
/// per `Metadata` event.
pub fn metadata_list_from_events(stream: &EventStream, status: &str) -> (r: Result<MetadataListResult>)
    ensures
        !stream.ok ==> is_stream_failure(r, *stream, "metadata_list"@, status@),
        stream.ok ==> (r matches Ok(res) && list_entries_of(res.entries@, of_kind(stream.events@, EventKind::Metadata))),
{
    if let Err(e) = check_stream(stream, "metadata_list", status) {
        return Err(e);
    }
    let ghost evs = stream.events@;
    let mut entries: Vec<MetadataEntry> = Vec::new();
    let mut i: usize = 0;
    while i < stream.events.len()
        invariant
            i <= stream.events.len(),
            evs == stream.events@,
            list_entries_of(entries@, of_kind(evs.take(i as int), EventKind::Metadata)),
        decreases stream.events.len() - i,
    {
        proof {
            lemma_fold_step(evs, EventKind::Metadata, i as int);
        }
        if let LoreEvent::Metadata(d) = &stream.events[i] {
            let (value, entry_type) = match convert_lore_metadata(&d.value) {
                Ok(c) => c,
                Err(e) => return Err(e),
            };
            entries.push(MetadataEntry { key: d.key.clone(), value, entry_type });
        }
        i += 1;
    }
    proof {
        lemma_take_all(evs);
    }
    Ok(MetadataListResult { entries })
}

} // verus!
