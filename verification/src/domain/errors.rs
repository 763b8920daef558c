//! What the service answers when a request fails.

use vstd::prelude::*;

verus! {

/// The failures that a caller of the service sees.
#[derive(Debug)]
pub enum AuthAPIError {
    /// The address is already registered.
    UserAlreadyExists,
    /// A field of the request is not well formed.
    InvalidCredentials,
    /// No such user, a wrong password, or a wrong or missing challenge.
    IncorrectCredentials,
    /// No session token came with the request.
    MissingToken,
    /// The session token is forged, expired or revoked.
    InvalidToken,
    /// A store, the hasher, the signer or the notifier failed. The text
    /// tells the cause, for the service's own records: no client sees it.
    UnexpectedError(String),
}

impl AuthAPIError {
    /// Whether two failures are of one kind, whatever the cause they carry.
    pub open spec fn same_kind(self, other: Self) -> bool {
        match (self, other) {
            (AuthAPIError::UserAlreadyExists, AuthAPIError::UserAlreadyExists) => true,
            (AuthAPIError::InvalidCredentials, AuthAPIError::InvalidCredentials) => true,
            (AuthAPIError::IncorrectCredentials, AuthAPIError::IncorrectCredentials) => true,
            (AuthAPIError::MissingToken, AuthAPIError::MissingToken) => true,
            (AuthAPIError::InvalidToken, AuthAPIError::InvalidToken) => true,
            (AuthAPIError::UnexpectedError(_), AuthAPIError::UnexpectedError(_)) => true,
            _ => false,
        }
    }

    /// The cause that an unexpected failure carries, for the service's own
    /// records.
    pub fn cause(&self) -> (text: Option<&str>)
        ensures
            match *self {
                AuthAPIError::UnexpectedError(cause) => text matches Some(t) && t@ == cause@,
                _ => text is None,
            },
    {
        match self {
            AuthAPIError::UnexpectedError(cause) => Some(cause.as_str()),
            _ => None,
        }
    }

    /// The HTTP status that stands for the failure.
    pub open spec fn status(self) -> u16 {
        match self {
            AuthAPIError::UserAlreadyExists => 409,
            AuthAPIError::InvalidCredentials => 400,
            AuthAPIError::IncorrectCredentials => 401,
            AuthAPIError::MissingToken => 400,
            AuthAPIError::InvalidToken => 401,
            AuthAPIError::UnexpectedError(_) => 500,
        }
    }

    /// The HTTP status that stands for the failure.
    pub fn status_code(&self) -> (code: u16)
        ensures
            code == self.status(),
    {
        match self {
            AuthAPIError::UserAlreadyExists => 409,
            AuthAPIError::InvalidCredentials => 400,
            AuthAPIError::IncorrectCredentials => 401,
            AuthAPIError::MissingToken => 400,
            AuthAPIError::InvalidToken => 401,
            AuthAPIError::UnexpectedError(_) => 500,
        }
    }

    /// The text sent with the failure. It tells nothing of its cause.
    pub fn message(&self) -> (text: &'static str)
        ensures
            text@ == match *self {
                AuthAPIError::UserAlreadyExists => "User already exists"@,
                AuthAPIError::InvalidCredentials => "Invalid credentials"@,
                AuthAPIError::IncorrectCredentials => "Incorrect credentials"@,
                AuthAPIError::MissingToken => "Missing auth token"@,
                AuthAPIError::InvalidToken => "Invalid auth token"@,
                AuthAPIError::UnexpectedError(_) => "Unexpected error"@,
            },
    {
        match self {
            AuthAPIError::UserAlreadyExists => "User already exists",
            AuthAPIError::InvalidCredentials => "Invalid credentials",
            AuthAPIError::IncorrectCredentials => "Incorrect credentials",
            AuthAPIError::MissingToken => "Missing auth token",
            AuthAPIError::InvalidToken => "Invalid auth token",
            AuthAPIError::UnexpectedError(_) => "Unexpected error",
        }
    }
}

impl PartialEq for AuthAPIError {
    fn eq(&self, other: &Self) -> (equal: bool) {
        match (self, other) {
            (AuthAPIError::UserAlreadyExists, AuthAPIError::UserAlreadyExists) => true,
            (AuthAPIError::InvalidCredentials, AuthAPIError::InvalidCredentials) => true,
            (AuthAPIError::IncorrectCredentials, AuthAPIError::IncorrectCredentials) => true,
            (AuthAPIError::MissingToken, AuthAPIError::MissingToken) => true,
            (AuthAPIError::InvalidToken, AuthAPIError::InvalidToken) => true,
            (AuthAPIError::UnexpectedError(_), AuthAPIError::UnexpectedError(_)) => true,
            _ => false,
        }
    }
}

impl vstd::std_specs::cmp::PartialEqSpecImpl for AuthAPIError {
    open spec fn obeys_eq_spec() -> bool {
        true
    }

    open spec fn eq_spec(&self, other: &Self) -> bool {
        self.same_kind(*other)
    }
}

} // verus!
