//! Identifiers of login attempts: UUIDs in their hyphenated form.

use vstd::prelude::*;
use vstd::string::*;

verus! {

/// The 128-bit value that `uuid::Uuid::parse_str` reads from `text`, if it
/// reads one.
pub uninterp spec fn uuid_value(text: Seq<char>) -> Option<u128>;

/// The text that `uuid::Uuid` displays for `value`: hyphenated, lower case.
pub uninterp spec fn uuid_text(value: u128) -> Seq<char>;

/// Whether `text` is a UUID written in the hyphenated lower-case form.
pub open spec fn is_login_attempt_id(text: Seq<char>) -> bool {
    uuid_value(text) matches Some(value) && uuid_text(value) == text
}

/// What reading `text` as a UUID and writing it again gives: its hyphenated
/// lower-case form, or nothing where it is no UUID.
pub open spec fn canonical(text: Seq<char>) -> Option<Seq<char>> {
    match uuid_value(text) {
        Some(value) => Some(uuid_text(value)),
        None => None,
    }
}

/// The message with which a text that is no UUID is rejected.
pub open spec fn rejection() -> Seq<char> {
    "Invalid login attempt id"@
}

/// Calls `uuid::Uuid::parse_str`, which reads a UUID in simple, hyphenated,
/// braced or URN form, and hands out its value by `as_u128`, or `None` where
/// the text is none of these. The answer is a function of the text alone.
#[verifier::external_body]
fn read_uuid(text: &str) -> (value: Option<u128>)
    ensures
        value == uuid_value(text@),
{
    match uuid::Uuid::parse_str(text) {
        Ok(id) => Some(id.as_u128()),
        Err(_) => None,
    }
}

/// Displays the `uuid::Uuid` of `value`, made by `from_u128`. The text is a
/// function of the value alone, and `parse_str` reads the same value back
/// from it, as it does from every form that the crate writes.
#[verifier::external_body]
fn write_uuid(value: u128) -> (text: String)
    ensures
        text@ == uuid_text(value),
        uuid_value(text@) == Some(value),
{
    uuid::Uuid::from_u128(value).to_string()
}

/// Calls `uuid::Uuid::new_v4` for a random UUID and hands out its value.
/// Nothing is known of it.
#[verifier::external_body]
fn random_uuid() -> (value: u128) {
    uuid::Uuid::new_v4().as_u128()
}

/// The identifier of one login attempt.
#[derive(Debug)]
pub struct LoginAttemptId(String);

impl View for LoginAttemptId {
    type V = Seq<char>;

    closed spec fn view(&self) -> Seq<char> {
        self.0@
    }
}

impl LoginAttemptId {
    #[verifier::type_invariant]
    spec fn well_formed(self) -> bool {
        is_login_attempt_id(self.0@)
    }

    /// The identifier whose UUID has the given value.
    pub fn from_u128(value: u128) -> (id: Self)
        ensures
            id@ == uuid_text(value),
            is_login_attempt_id(id@),
    {
        LoginAttemptId(write_uuid(value))
    }

    /// Reads `id` as a UUID and keeps it in hyphenated form.
    pub fn parse(id: String) -> (res: Result<Self, String>)
        ensures
            match canonical(id@) {
                Some(text) => res matches Ok(parsed) && parsed@ == text,
                None => res matches Err(msg) && msg@ == rejection(),
            },
    {
        match read_uuid(id.as_str()) {
            Some(value) => Ok(Self::from_u128(value)),
            None => Err("Invalid login attempt id".to_owned()),
        }
    }

    /// A fresh random identifier.
    pub fn generate() -> (id: Self)
        ensures
            is_login_attempt_id(id@),
    {
        Self::from_u128(random_uuid())
    }

    /// The identifier's text.
    pub fn as_ref(&self) -> (text: &str)
        ensures
            text@ == self@,
            is_login_attempt_id(text@),
    {
        proof {
            use_type_invariant(self);
        }
        self.0.as_str()
    }
}

impl Default for LoginAttemptId {
    fn default() -> (id: Self)
        ensures
            is_login_attempt_id(id@),
    {
        Self::generate()
    }
}

impl Clone for LoginAttemptId {
    fn clone(&self) -> (copy: Self)
        ensures
            copy@ == self@,
    {
        proof {
            use_type_invariant(self);
        }
        LoginAttemptId(self.0.clone())
    }
}

impl PartialEq for LoginAttemptId {
    fn eq(&self, other: &Self) -> (equal: bool) {
        self.0 == other.0
    }
}

impl Eq for LoginAttemptId {

}

impl vstd::std_specs::cmp::PartialEqSpecImpl for LoginAttemptId {
    open spec fn obeys_eq_spec() -> bool {
        true
    }

    open spec fn eq_spec(&self, other: &Self) -> bool {
        self@ == other@
    }
}

/// An identifier that was handed out is read back as itself: a client that
/// sends back what it was given names the same attempt.
pub proof fn lemma_login_attempt_id_round_trips(text: Seq<char>)
    requires
        is_login_attempt_id(text),
    ensures
        canonical(text) == Some(text),
{
}

} // verus!
