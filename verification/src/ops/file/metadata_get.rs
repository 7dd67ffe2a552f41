//! `file metadata_get`: reads one metadata entry of a file.
use vstd::prelude::*;
use crate::error::{LoreError, Result};
use crate::events::{check_stream, first_of_kind, is_stream_failure, lemma_fold_step, lemma_take_all, EventKind, EventStream, LoreEvent, MetadataValue};
use crate::base64::{base64, base64_text};
use crate::paths::{resolved, resolve_path};
use crate::text::{decimal, decimal_text};

verus! {

/// Arguments of `file metadata_get`.
#[derive(Debug, Clone)]
pub struct MetadataGetArgs {
    /// The file, relative to the repository root or absolute.
    pub path: String,
    pub key: String,
    /// The revision; empty for the current one.
    pub revision: String,
}

/// The engine's arguments of `file metadata_get`.
#[derive(Debug)]
pub struct LoreFileMetadataGetArgs {
    pub path: String,
    pub key: String,
    pub revision: String,
}

impl MetadataGetArgs {
    /// The engine's arguments, with the path resolved against `repo_root`.
    pub fn into_lore(self, repo_root: &str) -> (r: LoreFileMetadataGetArgs)
        ensures
            r.path@ == resolved(repo_root@, self.path@),
            r.key == self.key,
            r.revision == self.revision,
    {
        LoreFileMetadataGetArgs { path: resolve_path(repo_root, self.path.as_str()), key: self.key, revision: self.revision }
    }
}

/// The type of a metadata value.
#[derive(Debug, Clone, Copy, PartialEq, Eq, Structural)]
pub enum MetadataEntryType {
    Address,
    Boolean,
    /// A block of raw bytes, base64-encoded in the value field.
    Binary,
    Context,
    Hash,
    Numeric,
    String,
}

/// A metadata entry, its value shown as text.
#[derive(Debug, Clone)]
pub struct MetadataGetResult {
    pub key: String,
    pub value: String,
    pub entry_type: MetadataEntryType,
}

/// The text a metadata value shows as: strings, hashes, addresses and
/// contexts as themselves, numbers in decimal, booleans as `true` or
/// `false`, and binary values as the base64 text of their bytes.
pub open spec fn metadata_text(v: MetadataValue) -> Seq<char> {
    match v {
        MetadataValue::Address(a) => a@,
        MetadataValue::Boolean(b) => if b != 0 { "true"@ } else { "false"@ },
        MetadataValue::Binary(bin) => base64(bin@),
        MetadataValue::Context(c) => c@,
        MetadataValue::Hash(h) => h@,
        MetadataValue::Numeric(n) => decimal(n as nat),
        MetadataValue::String(s) => s@,
    }
}

/// The type of a metadata value.
pub open spec fn entry_type_of(v: MetadataValue) -> MetadataEntryType {
    match v {
        MetadataValue::Address(_) => MetadataEntryType::Address,
        MetadataValue::Boolean(_) => MetadataEntryType::Boolean,
        MetadataValue::Binary(_) => MetadataEntryType::Binary,
        MetadataValue::Context(_) => MetadataEntryType::Context,
        MetadataValue::Hash(_) => MetadataEntryType::Hash,
        MetadataValue::Numeric(_) => MetadataEntryType::Numeric,
        MetadataValue::String(_) => MetadataEntryType::String,
    }
}

/// A metadata entry's type names the kind of value it holds: a string as
/// a string, a number as numeric, a boolean as boolean, and likewise for
/// hashes, addresses, contexts and binary values. `t` is the type
/// `convert_lore_metadata` returns for the value `v`.
pub proof fn lemma_entry_type_names_the_value(v: MetadataValue, t: MetadataEntryType)
    requires
        t == entry_type_of(v),
    ensures
        v is String <==> t is String,
        v is Numeric <==> t is Numeric,
        v is Boolean <==> t is Boolean,
        v is Hash <==> t is Hash,
        v is Address <==> t is Address,
        v is Context <==> t is Context,
        v is Binary <==> t is Binary,
{
}

/// The text a metadata value shows as. It never fails.
pub fn metadata_value_text(v: &MetadataValue) -> (r: Result<String>)
    ensures
        r matches Ok(s) && s@ == metadata_text(*v),
{
    match v {
        MetadataValue::Address(a) => Ok(a.clone()),
        MetadataValue::Boolean(b) => {
            if *b != 0 {
                Ok(String::from_str("true"))
            } else {
                Ok(String::from_str("false"))
            }
        },
        MetadataValue::Binary(bin) => Ok(base64_text(bin.as_slice())),
        MetadataValue::Context(c) => Ok(c.clone()),
        MetadataValue::Hash(h) => Ok(h.clone()),
        MetadataValue::Numeric(n) => Ok(decimal_text(*n)),
        MetadataValue::String(s) => Ok(s.clone()),
    }
}

/// A metadata value shown as text, with its type. It never fails.
pub fn convert_lore_metadata(v: &MetadataValue) -> (r: Result<(String, MetadataEntryType)>)
    ensures
        r matches Ok((s, t)) && s@ == metadata_text(*v) && t == entry_type_of(*v),
{
    let text = match metadata_value_text(v) {
        Ok(s) => s,
        Err(e) => return Err(e),
    };
    let t = match v {
        MetadataValue::Address(_) => MetadataEntryType::Address,
        MetadataValue::Boolean(_) => MetadataEntryType::Boolean,
        MetadataValue::Binary(_) => MetadataEntryType::Binary,
        MetadataValue::Context(_) => MetadataEntryType::Context,
        MetadataValue::Hash(_) => MetadataEntryType::Hash,
        MetadataValue::Numeric(_) => MetadataEntryType::Numeric,
        MetadataValue::String(_) => MetadataEntryType::String,
    };
    Ok((text, t))
}

/// The result `file metadata_get` reports: the entry of its first
/// `Metadata` event, or a parse error when it reported none.
pub open spec fn metadata_get_reported(evs: Seq<LoreEvent>, r: Result<MetadataGetResult>) -> bool {
    match first_of_kind(evs, EventKind::Metadata) {
        Some(i) => evs[i] matches LoreEvent::Metadata(d) && r matches Ok(res) && res.key == d.key
            && res.value@ == metadata_text(d.value) && res.entry_type == entry_type_of(d.value),
        None => r matches Err(LoreError::Parse(m)) && m@ == "metadata_get succeeded but no Metadata event emitted"@,
    }
}

/// The result of `file metadata_get`, read off its event stream: the first
/// `Metadata` event whose value converts (every value does).
pub fn metadata_get_from_events(stream: &EventStream, status: &str) -> (r: Result<MetadataGetResult>)
    ensures
        !stream.ok ==> is_stream_failure(r, *stream, "metadata_get"@, status@),
        stream.ok ==> metadata_get_reported(stream.events@, r),
{
    if let Err(e) = check_stream(stream, "metadata_get", status) {
        return Err(e);
    }
    let ghost evs = stream.events@;
    let mut i: usize = 0;
    while i < stream.events.len()
        invariant
            i <= stream.events.len(),
            evs == stream.events@,
            stream.ok,
            first_of_kind(evs.take(i as int), EventKind::Metadata) is None,
        decreases stream.events.len() - i,
    {
        proof {
            lemma_fold_step(evs, EventKind::Metadata, i as int);
        }
        if let LoreEvent::Metadata(d) = &stream.events[i] {
            if let Ok((value, entry_type)) = convert_lore_metadata(&d.value) {
                proof {
                    crate::events::lemma_first_of_kind_prefix(evs, EventKind::Metadata, i as int + 1);
                }
                return Ok(MetadataGetResult { key: d.key.clone(), value, entry_type });
            }
        }
        i += 1;
    }
    proof {
        lemma_take_all(evs);
    }
    Err(LoreError::Parse(String::from_str("metadata_get succeeded but no Metadata event emitted")))
}

} // verus!
