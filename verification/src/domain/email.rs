//! Email addresses as a validated value.

use vstd::prelude::*;
use vstd::string::*;

verus! {

/// What `validator::validate_email` answers for `address`.
pub uninterp spec fn email_grammar(address: Seq<char>) -> bool;

/// Whether `address` has exactly one `@`, with something before it and
/// something after it.
pub open spec fn has_address_shape(address: Seq<char>) -> bool {
    exists|at: int|
        0 < at < address.len() - 1 && #[trigger] address[at] == '@' && forall|other: int|
            0 <= other < address.len() && other != at ==> #[trigger] address[other] != '@'
}

/// Whether `address` is an email address: the grammar takes it, and so it has
/// the shape of one.
pub open spec fn is_email(address: Seq<char>) -> bool {
    email_grammar(address) && has_address_shape(address)
}

/// The message with which `address` is rejected.
pub open spec fn rejection(address: Seq<char>) -> Seq<char> {
    address + " is not a valid email address."@
}

/// Calls `validator::validate_email`, which holds the address against the
/// HTML5 grammar of email addresses. The answer is a function of the text
/// alone. An address that it takes has one `@` only, since it is split at its
/// last `@` and the part before may hold none; that part and the part after
/// are both non-empty.
#[verifier::external_body]
fn grammar_accepts(address: &str) -> (accepted: bool)
    ensures
        accepted == email_grammar(address@),
        accepted ==> has_address_shape(address@),
{
    validator::validate_email(address)
}

/// An email address. Two are equal when their texts are, letter case
/// counted.
pub struct Email(String);

impl View for Email {
    type V = Seq<char>;

    closed spec fn view(&self) -> Seq<char> {
        self.0@
    }
}

impl Email {
    #[verifier::type_invariant]
    spec fn well_formed(self) -> bool {
        is_email(self.0@)
    }

    /// Accepts `address` exactly when it is an email address.
    pub fn parse(address: String) -> (res: Result<Email, String>)
        ensures
            is_email(address@) ==> (res matches Ok(email) && email@ == address@),
            !is_email(address@) ==> (res matches Err(msg) && msg@ == rejection(address@)),
            !has_address_shape(address@) ==> res is Err,
    {
        if grammar_accepts(address.as_str()) {
            Ok(Email(address))
        } else {
            Err(address.concat(" is not a valid email address."))
        }
    }

    /// The address's text.
    pub fn as_ref(&self) -> (text: &str)
        ensures
            text@ == self@,
            is_email(text@),
    {
        proof {
            use_type_invariant(self);
        }
        self.0.as_str()
    }
}

impl Clone for Email {
    fn clone(&self) -> (copy: Self)
        ensures
            copy@ == self@,
    {
        proof {
            use_type_invariant(self);
        }
        Email(self.0.clone())
    }
}

impl PartialEq for Email {
    fn eq(&self, other: &Self) -> (equal: bool) {
        self.0 == other.0
    }
}

impl Eq for Email {

}

impl vstd::std_specs::cmp::PartialEqSpecImpl for Email {
    open spec fn obeys_eq_spec() -> bool {
        true
    }

    open spec fn eq_spec(&self, other: &Self) -> bool {
        self@ == other@
    }
}

/// An empty text, one without `@`, and one that starts with `@` are no email
/// addresses.
pub proof fn lemma_shapeless_is_no_email(address: Seq<char>)
    requires
        address.len() == 0 || !address.contains('@') || address[0] == '@',
    ensures
        !has_address_shape(address),
        !is_email(address),
{
    if has_address_shape(address) {
        let at = choose|at: int|
            0 < at < address.len() - 1 && #[trigger] address[at] == '@' && forall|other: int|
                0 <= other < address.len() && other != at ==> #[trigger] address[other] != '@';
        assert(address.contains(address[at]));
        assert(address[0] != '@');
    }
}

} // verus!
