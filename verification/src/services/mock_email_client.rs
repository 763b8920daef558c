//! A notifier that keeps what it is given and delivers nothing.

use vstd::prelude::*;
use vstd::string::*;

use crate::domain::email::Email;
use crate::domain::email_client::{EmailClient, Message};

verus! {

/// One message that the notifier was given.
pub struct SentEmail {
    pub recipient: String,
    pub subject: String,
    pub content: String,
}

impl View for SentEmail {
    type V = Message;

    open spec fn view(&self) -> Message {
        Message { recipient: self.recipient@, subject: self.subject@, content: self.content@ }
    }
}

/// A notifier for use without a mail service: every message is taken and
/// kept, in order.
pub struct MockEmailClient {
    sent: Vec<SentEmail>,
}

impl MockEmailClient {
    /// A notifier that was given nothing yet.
    pub fn new() -> (client: Self)
        ensures
            client.outbox() == Seq::<Message>::empty(),
    {
        let client = MockEmailClient { sent: Vec::new() };
        assert(client.outbox() =~= Seq::<Message>::empty());
        client
    }

    /// The messages given so far, oldest first.
    pub fn sent(&self) -> (messages: &Vec<SentEmail>)
        ensures
            messages@.len() == self.outbox().len(),
            forall|i: int| 0 <= i < messages@.len() ==> (#[trigger] messages@[i])@ == self.outbox()[i],
    {
        &self.sent
    }
}

impl Default for MockEmailClient {
    fn default() -> (client: Self)
        ensures
            client.outbox() == Seq::<Message>::empty(),
    {
        Self::new()
    }
}

impl EmailClient for MockEmailClient {
    closed spec fn outbox(&self) -> Seq<Message> {
        self.sent@.map_values(|message: SentEmail| message@)
    }

    open spec fn dependable(&self) -> bool {
        true
    }

    fn send_email(&mut self, recipient: &Email, subject: &str, content: &str) -> (res: Result<
        (),
        String,
    >) {
        let ghost before = self.sent@;
        let message = SentEmail {
            recipient: recipient.as_ref().to_owned(),
            subject: subject.to_owned(),
            content: content.to_owned(),
        };
        self.sent.push(message);
        assert(self.outbox() =~= before.map_values(|message: SentEmail| message@).push(
            Message { recipient: recipient@, subject: subject@, content: content@ },
        ));
        Ok(())
    }
}

} // verus!
