use crate::actor::ActorId;
use crate::text::{decimal, prefixed_decimal, Text};
use vstd::prelude::*;

verus! {

/// The actor that sent a message on its current leg.
#[derive(Clone, Copy, Debug, PartialEq, Eq)]
pub struct SenderId(ActorId);

impl SenderId {
    /// The actor behind the identifier.
    pub closed spec fn actor(self) -> ActorId {
        self.0
    }

    /// The identifier for the actor `aid`.
    pub closed spec fn of(aid: ActorId) -> SenderId {
        SenderId(aid)
    }

    /// Retrieves the actor id.
    pub fn as_aid(&self) -> (aid: ActorId)
        ensures
            aid == self.actor(),
    {
        self.0
    }
}

/// The identifier for an actor carries that actor.
pub broadcast proof fn lemma_sender_of(aid: ActorId)
    ensures
        #[trigger] SenderId::of(aid).actor() == aid,
{
}

/// Two identifiers are equal exactly when they carry the same actor.
pub broadcast proof fn lemma_sender_determines(a: SenderId, b: SenderId)
    ensures
        #[trigger] a.actor() == #[trigger] b.actor() <==> a == b,
{
}

impl From<ActorId> for SenderId {
    fn from(value: ActorId) -> (r: SenderId) {
        SenderId(value)
    }
}

impl vstd::std_specs::convert::FromSpecImpl<ActorId> for SenderId {
    open spec fn obeys_from_spec() -> bool {
        true
    }

    open spec fn from_spec(v: ActorId) -> SenderId {
        SenderId::of(v)
    }
}

impl From<usize> for SenderId {
    fn from(value: usize) -> (r: SenderId) {
        SenderId(ActorId::new(value))
    }
}

impl vstd::std_specs::convert::FromSpecImpl<usize> for SenderId {
    open spec fn obeys_from_spec() -> bool {
        true
    }

    open spec fn from_spec(v: usize) -> SenderId {
        SenderId::of(ActorId::of(v))
    }
}

impl Text for SenderId {
    /// `S` followed by the number of the actor.
    open spec fn text_of(&self) -> Seq<char> {
        "S"@ + decimal(self.actor().id())
    }

    fn text(&self) -> (s: String) {
        proof {
            reveal_strlit("S");
        }
        prefixed_decimal("S", self.0.inner() as u64)
    }
}

} // verus!
