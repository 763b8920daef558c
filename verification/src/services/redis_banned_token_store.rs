//! What a store of banned tokens over a cache with expiry computes: the key
//! of a token and what to write under it. Talking to the cache is left to
//! the caller.

use vstd::prelude::*;
use vstd::string::*;

use crate::domain::data_stores::BannedTokenStoreError;
use crate::utils::auth::TOKEN_TTL_SECONDS;

verus! {

/// What every key of a banned token begins with.
pub const BANNED_TOKEN_KEY_PREFIX: &'static str = "banned_token:";

/// What is written to ban a token.
pub struct BannedTokenEntry {
    pub key: String,
    pub value: bool,
    /// Seconds after which the cache drops the entry.
    pub ttl: u64,
}

/// The key under which `token` is banned.
pub fn get_key(token: &str) -> (key: String)
    ensures
        key@ == BANNED_TOKEN_KEY_PREFIX@ + token@,
{
    BANNED_TOKEN_KEY_PREFIX.to_owned().concat(token)
}

/// What to write to ban `token`: `true` under its key, to be dropped when
/// the token would have expired anyway.
pub fn add_token_entry(token: &str) -> (res: Result<BannedTokenEntry, BannedTokenStoreError>)
    ensures
        res matches Ok(entry) && entry.key@ == BANNED_TOKEN_KEY_PREFIX@ + token@ && entry.value
            && entry.ttl == TOKEN_TTL_SECONDS,
{
    if TOKEN_TTL_SECONDS < 0 {
        return Err(BannedTokenStoreError::UnexpectedError);
    }
    Ok(BannedTokenEntry { key: get_key(token), value: true, ttl: TOKEN_TTL_SECONDS as u64 })
}

} // verus!
