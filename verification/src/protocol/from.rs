use crate::actor::ActorId;
use crate::text::Text;
use vstd::prelude::*;

verus! {

/// The origin of a protocol message.
#[derive(Clone, Copy, Debug, PartialEq, Eq)]
pub enum FromId {
    /// The message originates from an actor.
    Actor(ActorId),
    /// The message originates from a public api invocation.
    Api,
}

impl From<ActorId> for FromId {
    fn from(value: ActorId) -> (r: FromId) {
        FromId::Actor(value)
    }
}

impl vstd::std_specs::convert::FromSpecImpl<ActorId> for FromId {
    open spec fn obeys_from_spec() -> bool {
        true
    }

    open spec fn from_spec(v: ActorId) -> FromId {
        FromId::Actor(v)
    }
}

impl From<usize> for FromId {
    fn from(value: usize) -> (r: FromId) {
        FromId::Actor(ActorId::new(value))
    }
}

impl vstd::std_specs::convert::FromSpecImpl<usize> for FromId {
    open spec fn obeys_from_spec() -> bool {
        true
    }

    open spec fn from_spec(v: usize) -> FromId {
        FromId::Actor(ActorId::of(v))
    }
}

impl Text for FromId {
    /// The text of the actor, or `api`.
    open spec fn text_of(&self) -> Seq<char> {
        match self {
            FromId::Actor(aid) => aid.text_of(),
            FromId::Api => "api"@,
        }
    }

    fn text(&self) -> (s: String) {
        match self {
            FromId::Actor(aid) => aid.text(),
            FromId::Api => {
                proof {
                    reveal_strlit("api");
                }
                String::from_str("api")
            },
        }
    }
}

} // verus!
