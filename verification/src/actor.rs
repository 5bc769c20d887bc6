use crate::text::{decimal, prefixed_decimal, Text};
use vstd::prelude::*;

verus! {

/// The identifier of an actor (a node of the communication graph).
#[derive(Clone, Copy, Debug, Eq)]
pub struct ActorId(usize);

impl PartialEq for ActorId {
    fn eq(&self, other: &Self) -> (same: bool) {
        self.0 == other.0
    }
}

impl vstd::std_specs::cmp::PartialEqSpecImpl for ActorId {
    open spec fn obeys_eq_spec() -> bool {
        true
    }

    /// Two identifiers compare equal when they name the same number.
    open spec fn eq_spec(&self, other: &Self) -> bool {
        self.id() == other.id()
    }
}

impl ActorId {
    /// The number that identifies the actor.
    pub closed spec fn id(self) -> nat {
        self.0 as nat
    }

    /// The identifier of the actor numbered `value`.
    pub closed spec fn of(value: usize) -> ActorId {
        ActorId(value)
    }

    /// Builds the identifier of the actor numbered `value`.
    pub fn new(value: usize) -> (aid: ActorId)
        ensures
            aid == ActorId::of(value),
    {
        ActorId(value)
    }

    /// Retrieves the number behind the identifier.
    pub fn inner(&self) -> (v: usize)
        ensures
            v == self.id(),
    {
        self.0
    }
}

/// The identifier of the actor numbered `value` names that number.
pub broadcast proof fn lemma_of_names(value: usize)
    ensures
        #[trigger] ActorId::of(value).id() == value,
{
}

/// Two identifiers are equal exactly when they name the same number.
pub broadcast proof fn lemma_id_determines(a: ActorId, b: ActorId)
    ensures
        #[trigger] a.id() == #[trigger] b.id() <==> a == b,
{
}

/// The facts that let contracts speak of identifiers by their numbers.
pub broadcast group group_actor_id {
    lemma_of_names,
    lemma_id_determines,
}

impl From<usize> for ActorId {
    fn from(value: usize) -> (aid: ActorId) {
        ActorId(value)
    }
}

impl vstd::std_specs::convert::FromSpecImpl<usize> for ActorId {
    open spec fn obeys_from_spec() -> bool {
        true
    }

    open spec fn from_spec(v: usize) -> ActorId {
        ActorId::of(v)
    }
}

impl Text for ActorId {
    /// `A` followed by the number of the actor.
    open spec fn text_of(&self) -> Seq<char> {
        "A"@ + decimal(self.id())
    }

    fn text(&self) -> (s: String) {
        proof {
            reveal_strlit("A");
        }
        prefixed_decimal("A", self.0 as u64)
    }
}

} // verus!
