//! The three stores that the service rests on, as contracts over what they
//! hold.

use vstd::prelude::*;

use crate::domain::email::Email;
use crate::domain::login_attempt_id::LoginAttemptId;
use crate::domain::password::Password;
use crate::domain::two_fa_code::TwoFACode;
use crate::domain::user::{User, UserView};

verus! {

/// Why a user store did not do what it was asked.
#[derive(Debug)]
pub enum UserStoreError {
    UserAlreadyExists,
    UserNotFound,
    InvalidCredentials,
    /// The store failed for a reason of its own, told in the text.
    UnexpectedError(String),
}

impl UserStoreError {
    /// Whether two errors are of one kind, whatever the cause they carry.
    pub open spec fn same_kind(self, other: Self) -> bool {
        match (self, other) {
            (UserStoreError::UserAlreadyExists, UserStoreError::UserAlreadyExists) => true,
            (UserStoreError::UserNotFound, UserStoreError::UserNotFound) => true,
            (UserStoreError::InvalidCredentials, UserStoreError::InvalidCredentials) => true,
            (UserStoreError::UnexpectedError(_), UserStoreError::UnexpectedError(_)) => true,
            _ => false,
        }
    }

    /// The text that names the error.
    pub fn to_string(&self) -> (text: String)
        ensures
            text@ == match *self {
                UserStoreError::UserAlreadyExists => "User already exists"@,
                UserStoreError::UserNotFound => "User not found"@,
                UserStoreError::InvalidCredentials => "Invalid credentials"@,
                UserStoreError::UnexpectedError(_) => "Unexpected error"@,
            },
    {
        match self {
            UserStoreError::UserAlreadyExists => "User already exists".to_owned(),
            UserStoreError::UserNotFound => "User not found".to_owned(),
            UserStoreError::InvalidCredentials => "Invalid credentials".to_owned(),
            UserStoreError::UnexpectedError(_) => "Unexpected error".to_owned(),
        }
    }
}

impl PartialEq for UserStoreError {
    fn eq(&self, other: &Self) -> (equal: bool) {
        match (self, other) {
            (UserStoreError::UserAlreadyExists, UserStoreError::UserAlreadyExists) => true,
            (UserStoreError::UserNotFound, UserStoreError::UserNotFound) => true,
            (UserStoreError::InvalidCredentials, UserStoreError::InvalidCredentials) => true,
            (UserStoreError::UnexpectedError(_), UserStoreError::UnexpectedError(_)) => true,
            _ => false,
        }
    }
}

impl vstd::std_specs::cmp::PartialEqSpecImpl for UserStoreError {
    open spec fn obeys_eq_spec() -> bool {
        true
    }

    open spec fn eq_spec(&self, other: &Self) -> bool {
        self.same_kind(*other)
    }
}

/// Why a store of banned tokens did not do what it was asked.
#[derive(Debug, Clone, Copy, PartialEq, Eq, Structural)]
pub enum BannedTokenStoreError {
    UnexpectedError,
}

/// Why a store of two-factor challenges did not do what it was asked.
#[derive(Debug, Clone, Copy, PartialEq, Eq, Structural)]
pub enum TwoFACodeStoreError {
    LoginAttemptIdNotFound,
    UnexpectedError,
}

/// A store of users, each under the text of their email address.
///
/// The contracts speak of a store that is [`UserStore::dependable`]. Of any
/// other nothing is claimed: what it answers is taken as it comes.
pub trait UserStore {
    /// The users held, by the text of their address. A store may keep a
    /// password in another form than it was given.
    open spec fn users(&self) -> Map<Seq<char>, UserView> {
        Map::empty()
    }

    /// Whether the store holds what [`UserStore::users`] says and cannot
    /// fail for reasons of its own: one in memory is, one behind a network
    /// is not.
    open spec fn dependable(&self) -> bool {
        false
    }

    /// Whether the store takes `candidate` for the password that it keeps as
    /// `kept`.
    open spec fn accepts(kept: Seq<char>, candidate: Seq<char>) -> bool {
        false
    }

    /// Adds `user`, unless one is held under the same address.
    fn add_user(&mut self, user: User) -> (res: Result<(), UserStoreError>)
        ensures
            final(self).dependable() == old(self).dependable(),
            old(self).dependable() ==> match res {
                Ok(()) => {
                    &&& !old(self).users().contains_key(user.email@)
                    &&& final(self).users().contains_key(user.email@)
                    &&& final(self).users().remove(user.email@) == old(self).users()
                    &&& final(self).users()[user.email@].email == user.email@
                    &&& final(self).users()[user.email@].requires_2fa == user.requires_2fa
                    &&& Self::accepts(final(self).users()[user.email@].password, user.password@)
                },
                Err(UserStoreError::UserAlreadyExists) => {
                    &&& old(self).users().contains_key(user.email@)
                    &&& final(self).users() == old(self).users()
                },
                Err(_) => false,
            },
    ;

    /// The user held under `email`.
    fn get_user(&self, email: &Email) -> (res: Result<User, UserStoreError>)
        ensures
            self.dependable() ==> match res {
                Ok(user) => self.users().contains_key(email@) && user@ == self.users()[email@],
                Err(UserStoreError::UserNotFound) => !self.users().contains_key(email@),
                Err(_) => false,
            },
    ;

    /// Whether a user is held under `email` whose password the store takes
    /// `password` for.
    fn validate_user(&self, email: &Email, password: &Password) -> (res: Result<
        (),
        UserStoreError,
    >)
        ensures
            self.dependable() ==> match res {
                Ok(()) => self.users().contains_key(email@) && Self::accepts(
                    self.users()[email@].password,
                    password@,
                ),
                Err(UserStoreError::UserNotFound) => !self.users().contains_key(email@),
                Err(UserStoreError::InvalidCredentials) => self.users().contains_key(email@)
                    && !Self::accepts(self.users()[email@].password, password@),
                Err(_) => false,
            },
    ;
}

/// A store of session tokens that were revoked before they expired.
///
/// The contracts speak of a store that is [`BannedTokenStore::dependable`].
pub trait BannedTokenStore {
    /// The tokens held.
    open spec fn tokens(&self) -> Set<Seq<char>> {
        Set::empty()
    }

    /// Whether the store holds what [`BannedTokenStore::tokens`] says and
    /// cannot fail for reasons of its own.
    open spec fn dependable(&self) -> bool {
        false
    }

    /// Adds `token`. Adding one that is held already changes nothing.
    fn add_token(&mut self, token: String) -> (res: Result<(), BannedTokenStoreError>)
        ensures
            final(self).dependable() == old(self).dependable(),
            old(self).dependable() ==> res is Ok && final(self).tokens() == old(self).tokens().insert(token@),
    ;

    /// Whether `token` is held.
    fn contains_token(&self, token: &str) -> (res: Result<bool, BannedTokenStoreError>)
        ensures
            self.dependable() ==> (res matches Ok(held) && held == self.tokens().contains(token@)),
    ;
}

/// A store of two-factor challenges, at most one for each email address.
///
/// The contracts speak of a store that is [`TwoFACodeStore::dependable`].
pub trait TwoFACodeStore {
    /// The challenges held: for the text of an address, the texts of the
    /// attempt's identifier and of the code.
    open spec fn codes(&self) -> Map<Seq<char>, (Seq<char>, Seq<char>)> {
        Map::empty()
    }

    /// Whether the store holds what [`TwoFACodeStore::codes`] says and
    /// cannot fail for reasons of its own.
    open spec fn dependable(&self) -> bool {
        false
    }

    /// Puts the challenge under `email`, in place of any that was there.
    fn add_code(&mut self, email: Email, login_attempt_id: LoginAttemptId, code: TwoFACode) -> (res:
        Result<(), TwoFACodeStoreError>)
        ensures
            final(self).dependable() == old(self).dependable(),
            old(self).dependable() ==> res is Ok && final(self).codes() == old(self).codes().insert(email@, (login_attempt_id@, code@)),
    ;

    /// Takes away the challenge under `email`. That none was there is an
    /// error of its own kind: there was nothing to confirm.
    fn remove_code(&mut self, email: &Email) -> (res: Result<(), TwoFACodeStoreError>)
        ensures
            final(self).dependable() == old(self).dependable(),
            old(self).dependable() ==> match res {
                Ok(()) => old(self).codes().contains_key(email@) && final(self).codes() == old(self).codes().remove(email@),
                Err(TwoFACodeStoreError::LoginAttemptIdNotFound) => !old(self).codes().contains_key(
                    email@,
                ) && final(self).codes() == old(self).codes(),
                Err(_) => false,
            },
    ;

    /// The challenge under `email`.
    fn get_code(&self, email: &Email) -> (res: Result<
        (LoginAttemptId, TwoFACode),
        TwoFACodeStoreError,
    >)
        ensures
            self.dependable() ==> match res {
                Ok((login_attempt_id, code)) => self.codes().contains_key(email@)
                    && self.codes()[email@] == (login_attempt_id@, code@),
                Err(TwoFACodeStoreError::LoginAttemptIdNotFound) => !self.codes().contains_key(
                    email@,
                ),
                Err(_) => false,
            },
    ;
}

} // verus!
