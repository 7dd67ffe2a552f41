//! `auth list`: lists every stored authentication identity.
use vstd::prelude::*;
use crate::error::Result;
use crate::events::{
    check_stream, is_stream_failure, lemma_fold_step, lemma_take_all, of_kind, EventKind,
    EventStream, LoreEvent,
};
use crate::global::{flag, flag_of};

verus! {

/// Arguments of `auth list`.
#[derive(Debug, Clone)]
pub struct ListArgs {
    /// Include each identity's token.
    pub with_token: bool,
}

/// The engine's arguments of `auth list`.
#[derive(Debug)]
pub struct LoreAuthListArgs {
    pub with_token: u8,
}

impl ListArgs {
    /// The engine's arguments.
    pub fn into_lore(self) -> (r: LoreAuthListArgs)
        ensures
            r.with_token == flag(self.with_token),
    {
        LoreAuthListArgs { with_token: flag_of(self.with_token) }
    }
}

/// One stored identity.
#[derive(Debug, Clone)]
pub struct AuthIdentityEntry {
    pub auth_url: String,
    pub resource: String,
    pub user_id: String,
    pub authorized_domains: String,
    pub expires: u64,
    pub token: String,
}

/// The stored identities, with their number.
#[derive(Debug, Clone)]
pub struct AuthListResult {
    pub identity_count: u32,
    pub identities: Vec<AuthIdentityEntry>,
}

/// True when `entry` is the identity that event `e` reports.
pub open spec fn identity_of(entry: AuthIdentityEntry, e: LoreEvent) -> bool {
    e matches LoreEvent::AuthIdentity(d) && entry.auth_url == d.auth_url && entry.resource == d.resource
        && entry.user_id == d.user_id && entry.authorized_domains == d.authorized_domains
        && entry.expires == d.expires && entry.token == d.token
}

/// True when `entries` are the identities that `evs` report, in order.
pub open spec fn identities_of(entries: Seq<AuthIdentityEntry>, evs: Seq<LoreEvent>) -> bool {
    entries.len() == evs.len() && forall|j: int| 0 <= j < evs.len() ==> identity_of(#[trigger] entries[j], evs[j])
}

/// The result of `auth list`, read off its event stream: one identity per
/// `AuthIdentity` event, and their number (modulo 2^32).
pub fn list_from_events(stream: &EventStream, status: &str) -> (r: Result<AuthListResult>)
    ensures
        !stream.ok ==> is_stream_failure(r, *stream, "auth list"@, status@),
        stream.ok ==> (r matches Ok(res) && identities_of(res.identities@, of_kind(stream.events@, EventKind::AuthIdentity))
            && res.identity_count == res.identities.len() as u32),
{
    if let Err(e) = check_stream(stream, "auth list", status) {
        return Err(e);
    }
    let ghost evs = stream.events@;
    let mut identities: Vec<AuthIdentityEntry> = Vec::new();
    let mut i: usize = 0;
    while i < stream.events.len()
        invariant
            i <= stream.events.len(),
            evs == stream.events@,
            identities_of(identities@, of_kind(evs.take(i as int), EventKind::AuthIdentity)),
        decreases stream.events.len() - i,
    {
        proof {
            lemma_fold_step(evs, EventKind::AuthIdentity, i as int);
        }
        if let LoreEvent::AuthIdentity(d) = &stream.events[i] {
            identities.push(AuthIdentityEntry {
                auth_url: d.auth_url.clone(),
                resource: d.resource.clone(),
                user_id: d.user_id.clone(),
                authorized_domains: d.authorized_domains.clone(),
                expires: d.expires,
                token: d.token.clone(),
            });
        }
        i += 1;
    }
    proof {
        lemma_take_all(evs);
    }
    #[verifier::truncate]
    let identity_count = identities.len() as u32;
    Ok(AuthListResult { identity_count, identities })
}

} // verus!
