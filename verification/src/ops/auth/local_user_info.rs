//! `auth local_user_info`: resolves user identities from locally cached
//! tokens.
//!
//! The engine reports `AuthUserInfo` for each resolved user and, when tokens
//! were asked for and one is cached, `AuthUserToken`.
use vstd::prelude::*;
use crate::error::Result;
use crate::events::{
    check_stream, is_stream_failure, lemma_fold_step, lemma_take_all, of_kind, EventKind, EventStream,
    LoreEvent,
};
use crate::global::{flag, flag_of};

verus! {

/// Arguments of `auth local_user_info`.
#[derive(Debug, Clone)]
pub struct LocalUserInfoArgs {
    /// The authentication endpoint; empty to take it from the repository.
    pub auth_endpoint: String,
    /// The users to resolve; empty for the current user.
    pub user_ids: Vec<String>,
    /// Also report cached tokens.
    pub with_token: bool,
}

/// The engine's arguments of `auth local_user_info`.
#[derive(Debug)]
pub struct LoreAuthLocalUserInfoArgs {
    pub auth_endpoint: String,
    pub user_ids: Vec<String>,
    pub with_token: u8,
}

impl LocalUserInfoArgs {
    /// The engine's arguments.
    pub fn into_lore(self) -> (r: LoreAuthLocalUserInfoArgs)
        ensures
            r.auth_endpoint == self.auth_endpoint,
            r.user_ids == self.user_ids,
            r.with_token == flag(self.with_token),
    {
        LoreAuthLocalUserInfoArgs {
            auth_endpoint: self.auth_endpoint,
            user_ids: self.user_ids,
            with_token: flag_of(self.with_token),
        }
    }
}

/// A resolved user.
#[derive(Debug, Clone)]
pub struct LocalUserInfo {
    pub user_id: String,
    pub display_name: String,
}

/// A resolved user with its cached token.
#[derive(Debug, Clone)]
pub struct LocalUserTokenInfo {
    pub user_id: String,
    pub display_name: String,
    pub token: String,
    pub preferred_username: String,
    pub is_service_account: bool,
    pub expires: u64,
}

/// The resolved users and tokens.
#[derive(Debug, Clone)]
pub struct LocalUserInfoResult {
    pub users: Vec<LocalUserInfo>,
    pub tokens: Vec<LocalUserTokenInfo>,
}

/// True when `u` is the user that event `e` reports.
pub open spec fn user_of(u: LocalUserInfo, e: LoreEvent) -> bool {
    e matches LoreEvent::AuthUserInfo(d) && u.user_id == d.id && u.display_name == d.name
}

/// True when `t` is the token that event `e` reports.
pub open spec fn token_of(t: LocalUserTokenInfo, e: LoreEvent) -> bool {
    e matches LoreEvent::AuthUserToken(d) && t.user_id == d.id && t.display_name == d.name
        && t.token == d.token && t.preferred_username == d.preferred_username
        && t.is_service_account == (d.flag_service_account != 0) && t.expires == d.expires
}

/// True when `us` are the users that `evs` report, in order.
pub open spec fn users_of(us: Seq<LocalUserInfo>, evs: Seq<LoreEvent>) -> bool {
    us.len() == evs.len() && forall|j: int| 0 <= j < evs.len() ==> user_of(#[trigger] us[j], evs[j])
}

/// True when `ts` are the tokens that `evs` report, in order.
pub open spec fn tokens_of(ts: Seq<LocalUserTokenInfo>, evs: Seq<LoreEvent>) -> bool {
    ts.len() == evs.len() && forall|j: int| 0 <= j < evs.len() ==> token_of(#[trigger] ts[j], evs[j])
}

/// The result of `auth local_user_info`, read off its event stream: one user
/// per `AuthUserInfo` event and one token per `AuthUserToken` event.
pub fn local_user_info_from_events(stream: &EventStream, status: &str) -> (r: Result<LocalUserInfoResult>)
    ensures
        !stream.ok ==> is_stream_failure(r, *stream, "local_user_info"@, status@),
        stream.ok ==> (r matches Ok(res) && users_of(res.users@, of_kind(stream.events@, EventKind::AuthUserInfo))
            && tokens_of(res.tokens@, of_kind(stream.events@, EventKind::AuthUserToken))),
{
    if let Err(e) = check_stream(stream, "local_user_info", status) {
        return Err(e);
    }
    let ghost evs = stream.events@;
    let mut users: Vec<LocalUserInfo> = Vec::new();
    let mut tokens: Vec<LocalUserTokenInfo> = Vec::new();
    let mut i: usize = 0;
    while i < stream.events.len()
        invariant
            i <= stream.events.len(),
            evs == stream.events@,
            users_of(users@, of_kind(evs.take(i as int), EventKind::AuthUserInfo)),
            tokens_of(tokens@, of_kind(evs.take(i as int), EventKind::AuthUserToken)),
        decreases stream.events.len() - i,
    {
        proof {
            lemma_fold_step(evs, EventKind::AuthUserInfo, i as int);
            lemma_fold_step(evs, EventKind::AuthUserToken, i as int);
        }
        match &stream.events[i] {
            LoreEvent::AuthUserInfo(d) => {
                users.push(LocalUserInfo { user_id: d.id.clone(), display_name: d.name.clone() });
            },
            LoreEvent::AuthUserToken(d) => {
                tokens.push(LocalUserTokenInfo {
                    user_id: d.id.clone(),
                    display_name: d.name.clone(),
                    token: d.token.clone(),
                    preferred_username: d.preferred_username.clone(),
                    is_service_account: d.flag_service_account != 0,
                    expires: d.expires,
                });
            },
            _ => {},
        }
        i += 1;
    }
    proof {
        lemma_take_all(evs);
    }
    Ok(LocalUserInfoResult { users, tokens })
}

} // verus!
