//! What a user store over a relational table computes: password hashes,
//! the row of a new user, and what a fetched row stands for. Reading and
//! writing the table is left to the caller.

use vstd::prelude::*;
use vstd::string::*;
use vstd::utf8::encode_utf8;

use crate::domain::data_stores::UserStoreError;
use crate::domain::email::{is_email, Email};
use crate::domain::password::{is_password, Password};
use crate::domain::user::{User, UserView};

verus! {

/// Memory that one hash takes, in KiB.
pub const MEMORY_COST: u32 = 15000;

/// Passes over the memory that one hash takes.
pub const TIME_COST: u32 = 2;

/// Lanes that one hash is computed in.
pub const PARALLELISM: u32 = 1;

/// Most lanes that Argon2 computes a hash in.
pub const MAX_PARALLELISM: u32 = 0x00FF_FFFF;

/// Most bytes of a password that Argon2 hashes.
pub const MAX_PASSWORD_BYTES: u64 = 0xFFFF_FFFF;

/// What Argon2 with its default settings answers when `candidate` is held
/// against the hash written as `expected_hash`: whether it fits, or nothing
/// where the text is no hash or the computation fails.
pub uninterp spec fn argon2_verdict(expected_hash: Seq<char>, candidate: Seq<u8>) -> Option<bool>;

/// The costs of memory, of time and of lanes that Argon2 reads from the
/// hash written as `hash`, where it reads them.
pub uninterp spec fn argon2_costs(hash: Seq<char>) -> Option<(u32, u32, u32)>;

/// Whether `p=` stands at `at` with nine digits behind it: a number of
/// lanes of a hundred million or more.
pub open spec fn names_too_many_lanes(bytes: Seq<u8>, at: int) -> bool {
    &&& 0 <= at
    &&& at + 11 <= bytes.len()
    &&& bytes[at] == 0x70
    &&& bytes[at + 1] == 0x3d
    &&& forall|k: int| 0 <= k < 9 ==> 0x30 <= #[trigger] bytes[at + 2 + k] <= 0x39
}

/// Whether no parameter of the text names more lanes than a number of
/// eight digits. Argon2 takes at most 16777215 lanes, so no hash that it
/// verifies fails this; a text that does is not handed to it.
pub open spec fn lanes_fit(bytes: Seq<u8>) -> bool {
    forall|at: int| !names_too_many_lanes(bytes, at)
}

/// Whether `candidate` fits the hash written as `expected_hash`.
pub open spec fn hash_accepts(expected_hash: Seq<char>, candidate: Seq<char>) -> bool {
    &&& lanes_fit(encode_utf8(expected_hash))
    &&& argon2_verdict(expected_hash, encode_utf8(candidate)) == Some(true)
}

/// Whether a hash is owed for these costs: Argon2 asks for at least eight
/// blocks of memory for each lane, one pass and one lane.
pub open spec fn costs_are_valid(m_cost: u32, t_cost: u32, p_cost: u32) -> bool {
    &&& m_cost >= 8
    &&& m_cost >= 8 * p_cost
    &&& t_cost >= 1
    &&& 1 <= p_cost <= MAX_PARALLELISM
}

/// Why a password was not hashed or not found to fit.
#[derive(Debug, Clone, Copy, PartialEq, Eq, Structural)]
pub enum PasswordHashError {
    /// The candidate does not fit the hash.
    Mismatch,
    /// The hasher failed, or the text held against is no hash.
    UnexpectedError,
}

/// One row of the table of users.
pub struct UserRow {
    pub email: String,
    pub password_hash: String,
    pub requires_2fa: bool,
}

/// Draws a salt with `SaltString::generate` from `rand::thread_rng()` and
/// calls `hash_password` of Argon2id, version 19, with the given costs; the
/// hash is handed out in its text form. `Params::new` multiplies the lanes
/// by eight before it tests them, which overflows from 2^29 on: such lanes
/// are left out. With valid costs and a password within Argon2's length the
/// call does not fail. The salt is random, so of the text only this is said:
/// it carries the costs it was made with, in a parameter of at most eight
/// digits for the lanes and with no `=` behind its parameters; and verifying
/// `password` against it succeeds, since verifying computes the hash again
/// from the salt and the costs that the text carries.
#[verifier::external_body]
fn argon2id_hash(password: &[u8], m_cost: u32, t_cost: u32, p_cost: u32) -> (hash: Option<String>)
    requires
        p_cost <= MAX_PARALLELISM,
    ensures
        costs_are_valid(m_cost, t_cost, p_cost) && password@.len() <= MAX_PASSWORD_BYTES
            ==> hash is Some,
        hash matches Some(text) ==> {
            &&& argon2_costs(text@) == Some((m_cost, t_cost, p_cost))
            &&& lanes_fit(encode_utf8(text@))
            &&& argon2_verdict(text@, password@) == Some(true)
        },
{
    let salt = argon2::password_hash::SaltString::generate(&mut rand::thread_rng());
    let params = argon2::Params::new(m_cost, t_cost, p_cost, None).ok()?;
    let hasher = argon2::Argon2::new(argon2::Algorithm::Argon2id, argon2::Version::V0x13, params);
    let hash = argon2::PasswordHasher::hash_password(&hasher, password, &salt).ok()?;
    Some(hash.to_string())
}

/// Reads `expected_hash` with `PasswordHash::new` and calls
/// `verify_password` of `Argon2::default()` on it. The answer is a function
/// of the two arguments alone: the error `Password` stands for a candidate
/// that does not fit, every other error for no answer. The call reads the
/// lanes from a parameter `p=` of the text and multiplies them by eight
/// unchecked; a text that names a hundred million lanes or more is left
/// out, which no text that verifies does.
#[verifier::external_body]
fn argon2_verify(expected_hash: &str, candidate: &[u8]) -> (verdict: Option<bool>)
    requires
        lanes_fit(encode_utf8(expected_hash@)),
    ensures
        verdict == argon2_verdict(expected_hash@, candidate@),
{
    let parsed = argon2::PasswordHash::new(expected_hash).ok()?;
    let hasher = argon2::Argon2::default();
    match argon2::PasswordVerifier::verify_password(&hasher, candidate, &parsed) {
        Ok(()) => Some(true),
        Err(argon2::password_hash::Error::Password) => Some(false),
        Err(_) => None,
    }
}

/// Whether nine digits stand in `bytes` from `from` on.
fn nine_digits_at(bytes: &[u8], from: usize) -> (all: bool)
    requires
        from + 9 <= bytes@.len(),
    ensures
        all == forall|k: int| 0 <= k < 9 ==> 0x30 <= #[trigger] bytes@[from + k] <= 0x39,
{
    let len: usize = bytes.len();
    let mut k: usize = 0;
    while k < 9
        invariant
            k <= 9,
            len == bytes@.len(),
            from + 9 <= bytes@.len(),
            forall|j: int| 0 <= j < k ==> 0x30 <= #[trigger] bytes@[from + j] <= 0x39,
        decreases 9 - k,
    {
        let byte: u8 = bytes[from + k];
        if byte < 0x30 || byte > 0x39 {
            return false;
        }
        k += 1;
    }
    true
}

/// Whether the text names no more lanes than Argon2 can be asked for
/// without harm.
pub fn has_fitting_lanes(text: &str) -> (fits: bool)
    ensures
        fits == lanes_fit(encode_utf8(text@)),
{
    let bytes = text.as_bytes();
    assert(bytes@ == encode_utf8(text@));
    let len: usize = bytes.len();
    if len < 11 {
        return true;
    }
    let mut at: usize = 0;
    while at <= len - 11
        invariant
            len == bytes@.len(),
            bytes@ == encode_utf8(text@),
            len >= 11,
            at <= len - 10,
            forall|i: int| 0 <= i < at ==> !names_too_many_lanes(bytes@, i),
        decreases len - at,
    {
        if bytes[at] == 0x70 && bytes[at + 1] == 0x3d && nine_digits_at(bytes, at + 2) {
            assert(names_too_many_lanes(bytes@, at as int));
            return false;
        }
        at += 1;
    }
    true
}

/// What the hasher's answer means to the caller.
pub fn outcome(verdict: Option<bool>) -> (res: Result<(), PasswordHashError>)
    ensures
        res == match verdict {
            Some(true) => Ok::<(), PasswordHashError>(()),
            Some(false) => Err(PasswordHashError::Mismatch),
            None => Err(PasswordHashError::UnexpectedError),
        },
{
    match verdict {
        Some(true) => Ok(()),
        Some(false) => Err(PasswordHashError::Mismatch),
        None => Err(PasswordHashError::UnexpectedError),
    }
}

/// Whether `password` is within the length that Argon2 hashes.
pub open spec fn is_hashable(password: Seq<char>) -> bool {
    encode_utf8(password).len() <= MAX_PASSWORD_BYTES
}

/// Hashes `password` as Argon2id with a fresh salt and the costs
/// [`MEMORY_COST`], [`TIME_COST`] and [`PARALLELISM`]. The hash carries
/// these costs and fits the password. It is owed for every password within
/// Argon2's length. Each call takes tens of milliseconds on purpose.
pub fn compute_password_hash(password: &str) -> (res: Result<String, PasswordHashError>)
    ensures
        is_hashable(password@) ==> res is Ok,
        match res {
            Ok(hash) => {
                &&& argon2_costs(hash@) == Some((MEMORY_COST, TIME_COST, PARALLELISM))
                &&& hash_accepts(hash@, password@)
            },
            Err(e) => e == PasswordHashError::UnexpectedError && !is_hashable(password@),
        },
{
    match argon2id_hash(password.as_bytes(), MEMORY_COST, TIME_COST, PARALLELISM) {
        Some(hash) => Ok(hash),
        None => Err(PasswordHashError::UnexpectedError),
    }
}

/// What holding a candidate against a text comes to: a text that names too
/// many lanes is no hash to verify, else the hasher says.
pub open spec fn verification(expected_hash: Seq<char>, candidate: Seq<char>) -> Result<
    (),
    PasswordHashError,
> {
    if !lanes_fit(encode_utf8(expected_hash)) {
        Err(PasswordHashError::UnexpectedError)
    } else {
        match argon2_verdict(expected_hash, encode_utf8(candidate)) {
            Some(true) => Ok(()),
            Some(false) => Err(PasswordHashError::Mismatch),
            None => Err(PasswordHashError::UnexpectedError),
        }
    }
}

/// Holds `password_candidate` against `expected_password_hash`.
pub fn verify_password_hash(expected_password_hash: &str, password_candidate: &str) -> (res:
    Result<(), PasswordHashError>)
    ensures
        res == verification(expected_password_hash@, password_candidate@),
        res is Ok <==> hash_accepts(expected_password_hash@, password_candidate@),
{
    if !has_fitting_lanes(expected_password_hash) {
        return Err(PasswordHashError::UnexpectedError);
    }
    outcome(argon2_verify(expected_password_hash, password_candidate.as_bytes()))
}

/// The row to write for a new user: the password is hashed before anything
/// is written, and the row holds the hash only. It is owed for every user
/// whose password is within Argon2's length.
pub fn add_user_row(user: &User) -> (res: Result<UserRow, UserStoreError>)
    ensures
        is_hashable(user.password@) ==> res is Ok,
        match res {
            Ok(row) => {
                &&& row.email@ == user.email@
                &&& row.requires_2fa == user.requires_2fa
                &&& argon2_costs(row.password_hash@) == Some((MEMORY_COST, TIME_COST, PARALLELISM))
                &&& hash_accepts(row.password_hash@, user.password@)
            },
            Err(e) => e matches UserStoreError::UnexpectedError(_) && !is_hashable(user.password@),
        },
{
    match compute_password_hash(user.password.as_ref()) {
        Ok(password_hash) => Ok(
            UserRow {
                email: user.email.as_ref().to_owned(),
                password_hash,
                requires_2fa: user.requires_2fa,
            },
        ),
        Err(_) => Err(UserStoreError::UnexpectedError("failed to hash the password".to_owned())),
    }
}

/// What the table's answer to an insert means: `None` stands for a row that
/// was written, `Some(true)` for a failure because the address is held
/// already, `Some(false)` for any other failure.
pub fn insert_outcome(unique_violation: Option<bool>) -> (res: Result<(), UserStoreError>)
    ensures
        match unique_violation {
            None => res is Ok,
            Some(true) => res matches Err(UserStoreError::UserAlreadyExists),
            Some(false) => res matches Err(UserStoreError::UnexpectedError(_)),
        },
{
    match unique_violation {
        None => Ok(()),
        Some(true) => Err(UserStoreError::UserAlreadyExists),
        Some(false) => Err(UserStoreError::UnexpectedError("failed to write the user".to_owned())),
    }
}

/// The user that a fetched row stands for. No row is `UserNotFound`; a row
/// whose address or hash is not well formed is an unexpected error.
pub fn get_user_from_row(row: Option<UserRow>) -> (res: Result<User, UserStoreError>)
    ensures
        match row {
            None => res matches Err(UserStoreError::UserNotFound),
            Some(found) => if is_email(found.email@) && is_password(found.password_hash@) {
                res matches Ok(user) && user@ == (UserView {
                    email: found.email@,
                    password: found.password_hash@,
                    requires_2fa: found.requires_2fa,
                })
            } else {
                res matches Err(UserStoreError::UnexpectedError(_))
            },
        },
{
    let found = match row {
        Some(found) => found,
        None => { return Err(UserStoreError::UserNotFound); },
    };
    let email = match Email::parse(found.email) {
        Ok(email) => email,
        Err(cause) => { return Err(UserStoreError::UnexpectedError(cause)); },
    };
    let password = match Password::parse(found.password_hash) {
        Ok(password) => password,
        Err(_) => {
            return Err(
                UserStoreError::UnexpectedError("the stored hash is too short".to_owned()),
            );
        },
    };
    Ok(User::new(email, password, found.requires_2fa))
}

/// Holds `password` against a user that was fetched. A user that is not
/// there is `UserNotFound`, and any other failure to fetch is handed on as
/// unexpected. A password that does not fit the user's hash is
/// `InvalidCredentials`; a stored text that is no hash, or a hasher that
/// fails, is unexpected.
pub fn validate_fetched_user(fetched: Result<User, UserStoreError>, password: &Password) -> (res:
    Result<(), UserStoreError>)
    ensures
        match fetched {
            Err(UserStoreError::UserNotFound) => res matches Err(UserStoreError::UserNotFound),
            Err(_) => res matches Err(UserStoreError::UnexpectedError(_)),
            Ok(user) => match verification(user.password@, password@) {
                Ok(()) => res is Ok,
                Err(PasswordHashError::Mismatch) => res matches Err(
                    UserStoreError::InvalidCredentials,
                ),
                Err(PasswordHashError::UnexpectedError) => res matches Err(
                    UserStoreError::UnexpectedError(_),
                ),
            },
        },
{
    let user = match fetched {
        Ok(user) => user,
        Err(UserStoreError::UserNotFound) => { return Err(UserStoreError::UserNotFound); },
        Err(UserStoreError::UnexpectedError(cause)) => {
            return Err(UserStoreError::UnexpectedError(cause));
        },
        Err(_) => {
            return Err(UserStoreError::UnexpectedError("failed to fetch the user".to_owned()));
        },
    };
    match verify_password_hash(user.password.as_ref(), password.as_ref()) {
        Ok(()) => Ok(()),
        Err(PasswordHashError::Mismatch) => Err(UserStoreError::InvalidCredentials),
        Err(PasswordHashError::UnexpectedError) => Err(
            UserStoreError::UnexpectedError("failed to verify the password".to_owned()),
        ),
    }
}

} // verus!
