//! The notifier that carries two-factor codes to users.

use vstd::prelude::*;

use crate::domain::email::Email;

verus! {

/// One message, as it was handed to the notifier.
pub struct Message {
    pub recipient: Seq<char>,
    pub subject: Seq<char>,
    pub content: Seq<char>,
}

/// Delivers messages to email addresses. Whether a delivery succeeds is for
/// the implementor to say; the service answers either way. The contract
/// speaks of a notifier that is [`EmailClient::dependable`].
pub trait EmailClient {
    /// The messages that were taken for delivery so far, oldest first.
    open spec fn outbox(&self) -> Seq<Message> {
        Seq::empty()
    }

    /// Whether the notifier takes every message and
    /// [`EmailClient::outbox`] tells which: one that keeps them in memory
    /// does, one that talks to a mail service does not.
    open spec fn dependable(&self) -> bool {
        false
    }

    /// Sends `content` under `subject` to `recipient`, or says why it could
    /// not.
    fn send_email(&mut self, recipient: &Email, subject: &str, content: &str) -> (res: Result<
        (),
        String,
    >)
        ensures
            final(self).dependable() == old(self).dependable(),
            old(self).dependable() ==> res is Ok && final(self).outbox() == old(self).outbox().push(
                Message { recipient: recipient@, subject: subject@, content: content@ },
            ),
    ;
}

} // verus!
