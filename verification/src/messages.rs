//! Free-form messages passed between game systems.

use vstd::prelude::*;

verus! {

/// One message.
#[derive(Clone, Debug)]
pub struct Message(String);

impl View for Message {
    type V = Seq<char>;

    closed spec fn view(&self) -> Seq<char> {
        self.0@
    }
}

impl Message {
    /// A message holding `contents`.
    pub fn new(contents: String) -> (r: Message)
        ensures
            r@ == contents@,
    {
        Message(contents)
    }
}

/// The accumulated messages: pushed by producers, drained by the one
/// consumer.
#[derive(Debug)]
pub struct Messages {
    messages: Vec<Message>,
}

impl Messages {
    /// The messages accumulated so far, oldest first.
    pub closed spec fn spec_messages(self) -> Seq<Message> {
        self.messages@
    }

    /// Drain the queue: every message accumulated so far, oldest first,
    /// leaving the queue empty.
    pub fn take(&mut self) -> (r: Vec<Message>)
        ensures
            r@ == old(self).spec_messages(),
            final(self).spec_messages().len() == 0,
    {
        let mut drained: Vec<Message> = Vec::new();
        std::mem::swap(&mut drained, &mut self.messages);
        drained
    }

    /// Append one message to the queue.
    pub fn push(&mut self, message: Message)
        ensures
            final(self).spec_messages() == old(self).spec_messages().push(message),
    {
        self.messages.push(message);
    }
}

impl Default for Messages {
    /// An empty queue.
    fn default() -> (r: Messages)
        ensures
            r.spec_messages().len() == 0,
    {
        Messages { messages: Vec::new() }
    }
}

} // verus!
