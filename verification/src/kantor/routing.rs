use crate::actor::ActorId;
use crate::text::Text;
use vstd::prelude::*;

verus! {

/// The origin of a message.
#[derive(Clone, Copy, Debug, PartialEq, Eq)]
pub enum FromId {
    /// The message originates from an actor.
    FromActor(ActorId),
}

impl From<ActorId> for FromId {
    fn from(value: ActorId) -> (r: FromId) {
        FromId::FromActor(value)
    }
}

impl vstd::std_specs::convert::FromSpecImpl<ActorId> for FromId {
    open spec fn obeys_from_spec() -> bool {
        true
    }

    open spec fn from_spec(v: ActorId) -> FromId {
        FromId::FromActor(v)
    }
}

impl From<usize> for FromId {
    fn from(value: usize) -> (r: FromId) {
        FromId::FromActor(ActorId::new(value))
    }
}

impl vstd::std_specs::convert::FromSpecImpl<usize> for FromId {
    open spec fn obeys_from_spec() -> bool {
        true
    }

    open spec fn from_spec(v: usize) -> FromId {
        FromId::FromActor(ActorId::of(v))
    }
}

/// The destination of a message.
#[derive(Debug, PartialEq, Eq)]
pub enum ToId {
    /// A specific actor.
    ToActor(ActorId),
    /// Every actor.
    ToAllActors,
    /// Every actor but the listed ones.
    ToAllActorsExcept(Vec<ActorId>),
}

/// The mathematical model of a destination.
pub enum ToIdView {
    /// A specific actor.
    ToActor(ActorId),
    /// Every actor.
    ToAllActors,
    /// Every actor but the listed ones.
    ToAllActorsExcept(Seq<ActorId>),
}

impl View for ToId {
    type V = ToIdView;

    open spec fn view(&self) -> ToIdView {
        match self {
            ToId::ToActor(aid) => ToIdView::ToActor(*aid),
            ToId::ToAllActors => ToIdView::ToAllActors,
            ToId::ToAllActorsExcept(except) => ToIdView::ToAllActorsExcept(except@),
        }
    }
}

impl Clone for ToId {
    fn clone(&self) -> (r: ToId)
        ensures
            r@ == self@,
    {
        match self {
            ToId::ToActor(aid) => ToId::ToActor(*aid),
            ToId::ToAllActors => ToId::ToAllActors,
            ToId::ToAllActorsExcept(except) => {
                let copy = except.clone();
                proof {
                    assert(copy@ =~= except@);
                }
                ToId::ToAllActorsExcept(copy)
            },
        }
    }
}

impl From<ActorId> for ToId {
    fn from(value: ActorId) -> (r: ToId) {
        ToId::ToActor(value)
    }
}

impl vstd::std_specs::convert::FromSpecImpl<ActorId> for ToId {
    open spec fn obeys_from_spec() -> bool {
        true
    }

    open spec fn from_spec(v: ActorId) -> ToId {
        ToId::ToActor(v)
    }
}

impl From<usize> for ToId {
    fn from(value: usize) -> (r: ToId) {
        ToId::ToActor(ActorId::new(value))
    }
}

impl vstd::std_specs::convert::FromSpecImpl<usize> for ToId {
    open spec fn obeys_from_spec() -> bool {
        true
    }

    open spec fn from_spec(v: usize) -> ToId {
        ToId::ToActor(ActorId::of(v))
    }
}

/// The actor that forwarded a message on its current hop.
#[derive(Clone, Copy, Debug, PartialEq, Eq)]
pub struct HopId(ActorId);

impl HopId {
    /// The actor behind the identifier.
    pub closed spec fn actor(self) -> ActorId {
        self.0
    }

    /// The identifier for the actor `aid`.
    pub closed spec fn of(aid: ActorId) -> HopId {
        HopId(aid)
    }

    /// Retrieves the actor id.
    pub fn aid(&self) -> (aid: ActorId)
        ensures
            aid == self.actor(),
    {
        self.0
    }
}

/// The identifier for an actor carries that actor.
pub broadcast proof fn lemma_hop_of(aid: ActorId)
    ensures
        #[trigger] HopId::of(aid).actor() == aid,
{
}

/// Two identifiers are equal exactly when they carry the same actor.
pub broadcast proof fn lemma_hop_determines(a: HopId, b: HopId)
    ensures
        #[trigger] a.actor() == #[trigger] b.actor() <==> a == b,
{
}

impl From<ActorId> for HopId {
    fn from(value: ActorId) -> (r: HopId) {
        HopId(value)
    }
}

impl vstd::std_specs::convert::FromSpecImpl<ActorId> for HopId {
    open spec fn obeys_from_spec() -> bool {
        true
    }

    open spec fn from_spec(v: ActorId) -> HopId {
        HopId::of(v)
    }
}

impl From<usize> for HopId {
    fn from(value: usize) -> (r: HopId) {
        HopId(ActorId::new(value))
    }
}

impl vstd::std_specs::convert::FromSpecImpl<usize> for HopId {
    open spec fn obeys_from_spec() -> bool {
        true
    }

    open spec fn from_spec(v: usize) -> HopId {
        HopId::of(ActorId::of(v))
    }
}

impl Text for FromId {
    /// The text of the actor.
    open spec fn text_of(&self) -> Seq<char> {
        match self {
            FromId::FromActor(aid) => aid.text_of(),
        }
    }

    fn text(&self) -> (s: String) {
        match self {
            FromId::FromActor(aid) => aid.text(),
        }
    }
}

impl ToIdView {
    /// The text of the actor, `all`, or `all--` when some actors are left out.
    pub open spec fn text(self) -> Seq<char> {
        match self {
            ToIdView::ToActor(aid) => aid.text_of(),
            ToIdView::ToAllActors => "all"@,
            ToIdView::ToAllActorsExcept(_) => "all--"@,
        }
    }
}

impl Text for ToId {
    /// The text of the actor, `all`, or `all--` when some actors are left out.
    open spec fn text_of(&self) -> Seq<char> {
        self@.text()
    }

    fn text(&self) -> (s: String) {
        proof {
            reveal_strlit("all");
            reveal_strlit("all--");
        }
        match self {
            ToId::ToActor(aid) => aid.text(),
            ToId::ToAllActors => String::from_str("all"),
            ToId::ToAllActorsExcept(_) => String::from_str("all--"),
        }
    }
}

impl Text for HopId {
    /// The text of the actor.
    open spec fn text_of(&self) -> Seq<char> {
        self.actor().text_of()
    }

    fn text(&self) -> (s: String) {
        self.0.text()
    }
}

} // verus!
