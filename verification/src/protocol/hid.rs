use crate::actor::ActorId;
use crate::text::Text;
use vstd::prelude::*;

verus! {

/// The actor that forwarded a message on its current hop.
#[derive(Clone, Copy, Debug, PartialEq, Eq)]
pub struct HopId(ActorId);

impl HopId {
    /// The actor behind the identifier.
    pub closed spec fn actor(self) -> ActorId {
        self.0
    }

    /// The identifier for the actor `aid`.
    pub closed spec fn of(aid: ActorId) -> HopId {
        HopId(aid)
    }

    /// Retrieves the actor id.
    pub fn aid(&self) -> (aid: ActorId)
        ensures
            aid == self.actor(),
    {
        self.0
    }
}

/// The identifier for an actor carries that actor.
pub broadcast proof fn lemma_hop_of(aid: ActorId)
    ensures
        #[trigger] HopId::of(aid).actor() == aid,
{
}

/// Two identifiers are equal exactly when they carry the same actor.
pub broadcast proof fn lemma_hop_determines(a: HopId, b: HopId)
    ensures
        #[trigger] a.actor() == #[trigger] b.actor() <==> a == b,
{
}

impl From<ActorId> for HopId {
    fn from(value: ActorId) -> (r: HopId) {
        HopId(value)
    }
}

impl vstd::std_specs::convert::FromSpecImpl<ActorId> for HopId {
    open spec fn obeys_from_spec() -> bool {
        true
    }

    open spec fn from_spec(v: ActorId) -> HopId {
        HopId::of(v)
    }
}

impl From<usize> for HopId {
    fn from(value: usize) -> (r: HopId) {
        HopId(ActorId::new(value))
    }
}

impl vstd::std_specs::convert::FromSpecImpl<usize> for HopId {
    open spec fn obeys_from_spec() -> bool {
        true
    }

    open spec fn from_spec(v: usize) -> HopId {
        HopId::of(ActorId::of(v))
    }
}

impl Text for HopId {
    /// The text of the actor.
    open spec fn text_of(&self) -> Seq<char> {
        self.actor().text_of()
    }

    fn text(&self) -> (s: String) {
        self.0.text()
    }
}

} // verus!
