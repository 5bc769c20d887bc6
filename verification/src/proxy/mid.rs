use crate::text::{decimal, decimal_string, Text};
use vstd::prelude::*;

verus! {

/// The number given to a message sent through a proxy.
#[derive(Debug, Clone, Copy, PartialEq, Eq, Structural)]
pub struct MessageId(usize);

impl MessageId {
    /// The number behind the identifier.
    pub closed spec fn id(self) -> nat {
        self.0 as nat
    }

    /// Builds the identifier numbered `v`.
    pub fn new(v: usize) -> (m: MessageId)
        ensures
            m.id() == v,
    {
        MessageId(v)
    }

    /// Retrieves the number behind the identifier.
    pub fn inner(&self) -> (v: usize)
        ensures
            v == self.id(),
    {
        self.0
    }

    /// Hands out the current identifier and moves on to the next one.
    pub fn increment_mid(&mut self) -> (current: MessageId)
        requires
            old(self).id() < usize::MAX,
        ensures
            current == *old(self),
            final(self).id() == old(self).id() + 1,
    {
        let mid = self.0;
        self.0 = self.0 + 1;
        MessageId(mid)
    }
}

impl Default for MessageId {
    fn default() -> (m: MessageId)
        ensures
            m.id() == 0,
    {
        MessageId::new(0)
    }
}

impl Text for MessageId {
    /// The number of the message.
    open spec fn text_of(&self) -> Seq<char> {
        decimal(self.id())
    }

    fn text(&self) -> (s: String) {
        decimal_string(self.0 as u64)
    }
}

} // verus!
