//! Passwords as a validated value.

use vstd::prelude::*;
use vstd::string::*;
use vstd::utf8::encode_utf8;

verus! {

/// Fewest bytes a password may have.
pub const MIN_PASSWORD_BYTES: usize = 8;

/// Number of bytes that `text` takes in UTF-8.
pub open spec fn byte_len(text: Seq<char>) -> nat {
    encode_utf8(text).len()
}

/// Whether `text` is long enough to be a password.
pub open spec fn is_password(text: Seq<char>) -> bool {
    byte_len(text) >= MIN_PASSWORD_BYTES
}

/// The message with which `text` is rejected as a password.
pub open spec fn rejection(text: Seq<char>) -> Seq<char> {
    text + " is not a valid password"@
}

/// A string of at least [`MIN_PASSWORD_BYTES`] bytes.
pub struct Password(String);

impl View for Password {
    type V = Seq<char>;

    closed spec fn view(&self) -> Seq<char> {
        self.0@
    }
}

impl Password {
    #[verifier::type_invariant]
    spec fn well_formed(self) -> bool {
        is_password(self.0@)
    }

    /// Accepts `password` exactly when it has at least eight bytes.
    pub fn parse(password: String) -> (res: Result<Password, String>)
        ensures
            is_password(password@) ==> (res matches Ok(p) && p@ == password@),
            !is_password(password@) ==> (res matches Err(msg) && msg@ == rejection(password@)),
    {
        if password.as_str().as_bytes().len() >= MIN_PASSWORD_BYTES {
            Ok(Password(password))
        } else {
            Err(password.concat(" is not a valid password"))
        }
    }

    /// The password's text.
    pub fn as_ref(&self) -> (text: &str)
        ensures
            text@ == self@,
            is_password(text@),
    {
        proof {
            use_type_invariant(self);
        }
        self.0.as_str()
    }
}

impl Clone for Password {
    fn clone(&self) -> (copy: Self)
        ensures
            copy@ == self@,
    {
        proof {
            use_type_invariant(self);
        }
        Password(self.0.clone())
    }
}

impl PartialEq for Password {
    fn eq(&self, other: &Self) -> (equal: bool) {
        self.0 == other.0
    }
}

impl Eq for Password {

}

impl vstd::std_specs::cmp::PartialEqSpecImpl for Password {
    open spec fn obeys_eq_spec() -> bool {
        true
    }

    open spec fn eq_spec(&self, other: &Self) -> bool {
        self@ == other@
    }
}

} // verus!
