//! The cache of the cloud access token.
//!
//! Time is counted in seconds on a clock that never runs backwards. A token
//! is used as long as its expiry lies ahead; a fresh one is kept for 55
//! minutes, a little less than it lasts.

use crate::json::{get_text, json_document, parse_document, text_member};
use vstd::prelude::*;
use vstd::string::StringExecFns;

verus! {

/// How long a fresh token is kept, in seconds.
pub const TOKEN_LIFETIME_SECS: u64 = 3300;

pub const KEY_ACCESS_TOKEN: &'static str = "access_token";

pub const NO_TOKEN_MESSAGE: &'static str = "No access token in response";

pub const TOKEN_ERROR_PREFIX: &'static str = "IAM Token Error: ";

pub const TOKEN_ERROR_SEPARATOR: &'static str = " - ";

/// A token and the time from which it is no longer used.
#[derive(Clone, Debug)]
pub struct CachedToken {
    pub token: String,
    pub expires_at: u64,
}

/// The token to use at time `now`: the cached one while its expiry lies
/// ahead, none otherwise.
pub open spec fn usable_token(cache: Option<CachedToken>, now: u64) -> Option<Seq<char>> {
    match cache {
        Some(held) => if held.expires_at > now {
            Some(held.token@)
        } else {
            None
        },
        None => None,
    }
}

/// Looks a token up in the cache. When one is returned, no new token must
/// be fetched; when none is, one must.
pub fn cached_token(cache: &Option<CachedToken>, now: u64) -> (token: Option<String>)
    ensures
        match token {
            Some(held) => usable_token(*cache, now) == Some(held@),
            None => usable_token(*cache, now) is None,
        },
{
    match cache {
        Some(held) => {
            if held.expires_at > now {
                Some(held.token.clone())
            } else {
                None
            }
        },
        None => None,
    }
}

/// The cache entry for a token fetched at time `now`.
pub fn cache_entry(token: &str, now: u64) -> (entry: CachedToken)
    requires
        now + TOKEN_LIFETIME_SECS <= u64::MAX,
    ensures
        entry.token@ == token@,
        entry.expires_at == now + TOKEN_LIFETIME_SECS,
{
    CachedToken { token: String::from_str(token), expires_at: now + TOKEN_LIFETIME_SECS }
}

/// The message for a token request that the identity service refused.
pub open spec fn refusal_message(status: Seq<char>, body: Seq<char>) -> Seq<char> {
    TOKEN_ERROR_PREFIX@ + status + TOKEN_ERROR_SEPARATOR@ + body
}

/// What a response of the identity service amounts to: the token, or the
/// reason why there is none.
pub open spec fn token_outcome(success: bool, status: Seq<char>, body: Seq<char>) -> Result<
    Seq<char>,
    Seq<char>,
> {
    if !success {
        Err(refusal_message(status, body))
    } else {
        match json_document(body) {
            Some(document) => match text_member(document, KEY_ACCESS_TOKEN@) {
                Some(token) => Ok(token),
                None => Err(NO_TOKEN_MESSAGE@),
            },
            None => Err(NO_TOKEN_MESSAGE@),
        }
    }
}

/// Reads the response of the identity service. `success` says whether the
/// status code was one of success, `status` is the status as text.
pub fn read_token_response(success: bool, status: &str, body: &str) -> (outcome: Result<
    String,
    String,
>)
    ensures
        match outcome {
            Ok(token) => token_outcome(success, status@, body@) == Ok::<Seq<char>, Seq<char>>(
                token@,
            ),
            Err(reason) => token_outcome(success, status@, body@) == Err::<Seq<char>, Seq<char>>(
                reason@,
            ),
        },
{
    if !success {
        let mut reason = String::from_str(TOKEN_ERROR_PREFIX);
        reason.append(status);
        reason.append(TOKEN_ERROR_SEPARATOR);
        reason.append(body);
        return Err(reason);
    }
    match parse_document(body) {
        Ok(document) => match get_text(&document, KEY_ACCESS_TOKEN) {
            Some(token) => Ok(token),
            None => Err(String::from_str(NO_TOKEN_MESSAGE)),
        },
        Err(_) => Err(String::from_str(NO_TOKEN_MESSAGE)),
    }
}

/// A token that is still good keeps being used: while the expiry of the
/// cached token lies ahead, the lookup returns that token.
pub proof fn lemma_fresh_token_is_reused(cache: CachedToken, now: u64)
    requires
        cache.expires_at > now,
    ensures
        usable_token(Some(cache), now) == Some(cache.token@),
{
}

} // verus!
