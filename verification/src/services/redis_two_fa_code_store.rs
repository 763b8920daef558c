//! What a store of challenges over a cache with expiry computes: the key of
//! an address, the text kept under it and what that text stands for. Talking
//! to the cache is left to the caller.

use vstd::prelude::*;
use vstd::string::*;

use crate::domain::data_stores::TwoFACodeStoreError;
use crate::domain::email::Email;
use crate::domain::login_attempt_id::{uuid_text, uuid_value, LoginAttemptId};
use crate::domain::two_fa_code::{is_code, TwoFACode};

verus! {

/// Seconds after which a challenge is dropped.
pub const TEN_MINUTES_IN_SECONDS: u64 = 600;

/// What every key of a challenge begins with.
pub const TWO_FA_CODE_PREFIX: &'static str = "two_fa_code:";

/// The JSON text that `serde_json::to_string` writes for a pair of strings,
/// if it writes one.
pub uninterp spec fn json_of_pair(first: Seq<char>, second: Seq<char>) -> Option<Seq<char>>;

/// The pair of strings that `serde_json::from_str` reads from a JSON text,
/// if it reads one.
pub uninterp spec fn pair_of_json(text: Seq<char>) -> Option<(Seq<char>, Seq<char>)>;

/// What is written to keep a challenge.
pub struct TwoFACodeEntry {
    pub key: String,
    pub value: String,
    /// Seconds after which the cache drops the entry.
    pub ttl: u64,
}

/// Calls `serde_json::to_string` on the pair, which writes a JSON array of
/// two strings. The text is a function of the pair alone.
#[verifier::external_body]
fn write_pair(first: &str, second: &str) -> (text: Option<String>)
    ensures
        match text {
            Some(json) => json_of_pair(first@, second@) == Some(json@),
            None => json_of_pair(first@, second@) is None,
        },
{
    serde_json::to_string(&(first, second)).ok()
}

/// Calls `serde_json::from_str` for a pair of strings, which reads a JSON
/// array of two strings and nothing else. The pair is a function of the text
/// alone.
#[verifier::external_body]
fn read_pair(text: &str) -> (pair: Option<(String, String)>)
    ensures
        match pair {
            Some((first, second)) => pair_of_json(text@) == Some((first@, second@)),
            None => pair_of_json(text@) is None,
        },
{
    serde_json::from_str::<(String, String)>(text).ok()
}

/// The key under which the challenge of `email` is kept.
pub fn get_key(email: &Email) -> (key: String)
    ensures
        key@ == TWO_FA_CODE_PREFIX@ + email@,
{
    TWO_FA_CODE_PREFIX.to_owned().concat(email.as_ref())
}

/// What to write to keep a challenge: under the key of the address, the
/// identifier and the code as a JSON pair, to be dropped after ten minutes.
pub fn add_code_entry(email: &Email, login_attempt_id: &LoginAttemptId, code: &TwoFACode) -> (res:
    Result<TwoFACodeEntry, TwoFACodeStoreError>)
    ensures
        match res {
            Ok(entry) => {
                &&& entry.key@ == TWO_FA_CODE_PREFIX@ + email@
                &&& json_of_pair(login_attempt_id@, code@) == Some(entry.value@)
                &&& entry.ttl == TEN_MINUTES_IN_SECONDS
            },
            Err(e) => e == TwoFACodeStoreError::UnexpectedError && json_of_pair(
                login_attempt_id@,
                code@,
            ) is None,
        },
{
    match write_pair(login_attempt_id.as_ref(), code.as_ref()) {
        Some(value) => Ok(TwoFACodeEntry { key: get_key(email), value, ttl: TEN_MINUTES_IN_SECONDS }),
        None => Err(TwoFACodeStoreError::UnexpectedError),
    }
}

/// What the cache's answer to a delete means: that no entry was taken away
/// says that there was no challenge to confirm.
pub fn remove_outcome(removed: u64) -> (res: Result<(), TwoFACodeStoreError>)
    ensures
        res == if removed == 0 {
            Err::<(), TwoFACodeStoreError>(TwoFACodeStoreError::LoginAttemptIdNotFound)
        } else {
            Ok::<(), TwoFACodeStoreError>(())
        },
{
    if removed == 0 {
        Err(TwoFACodeStoreError::LoginAttemptIdNotFound)
    } else {
        Ok(())
    }
}

/// The challenge that a pair of texts stands for, where the first is a UUID
/// and the second a code.
pub open spec fn challenge_of(pair: Option<(Seq<char>, Seq<char>)>) -> Option<
    (Seq<char>, Seq<char>),
> {
    match pair {
        Some((first, second)) => match uuid_value(first) {
            Some(value) => if is_code(second) {
                Some((uuid_text(value), second))
            } else {
                None
            },
            None => None,
        },
        None => None,
    }
}

/// The challenge that a pair read from the cache stands for, or
/// `UnexpectedError` where it stands for none.
pub fn challenge_from_pair(pair: Option<(String, String)>) -> (res: Result<
    (LoginAttemptId, TwoFACode),
    TwoFACodeStoreError,
>)
    ensures
        match res {
            Ok((login_attempt_id, code)) => pair matches Some((first, second)) && challenge_of(
                Some((first@, second@)),
            ) == Some((login_attempt_id@, code@)),
            Err(e) => e == TwoFACodeStoreError::UnexpectedError && (pair matches Some(
                (first, second),
            ) ==> challenge_of(Some((first@, second@))) is None),
        },
{
    let (first, second) = match pair {
        Some(pair) => pair,
        None => { return Err(TwoFACodeStoreError::UnexpectedError); },
    };
    let login_attempt_id = match LoginAttemptId::parse(first) {
        Ok(login_attempt_id) => login_attempt_id,
        Err(_) => { return Err(TwoFACodeStoreError::UnexpectedError); },
    };
    let code = match TwoFACode::parse(second) {
        Ok(code) => code,
        Err(_) => { return Err(TwoFACodeStoreError::UnexpectedError); },
    };
    Ok((login_attempt_id, code))
}

/// The challenge that the text kept under a key stands for. No text is
/// `LoginAttemptIdNotFound`; a text that is no JSON pair of a UUID and a
/// code is `UnexpectedError`.
pub fn get_code_from_value(value: Option<String>) -> (res: Result<
    (LoginAttemptId, TwoFACode),
    TwoFACodeStoreError,
>)
    ensures
        match value {
            None => res matches Err(TwoFACodeStoreError::LoginAttemptIdNotFound),
            Some(text) => match challenge_of(pair_of_json(text@)) {
                Some(challenge) => res matches Ok((login_attempt_id, code)) && challenge == (
                    login_attempt_id@,
                    code@,
                ),
                None => res matches Err(TwoFACodeStoreError::UnexpectedError),
            },
        },
{
    match value {
        None => Err(TwoFACodeStoreError::LoginAttemptIdNotFound),
        Some(text) => challenge_from_pair(read_pair(text.as_str())),
    }
}

} // verus!
