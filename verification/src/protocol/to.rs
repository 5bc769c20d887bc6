use crate::actor::ActorId;
use crate::text::Text;
use vstd::prelude::*;

verus! {

/// The destination of a protocol message.
#[derive(Debug, PartialEq, Eq)]
pub enum To {
    /// The destination is a specific actor.
    Actor(ActorId),
    /// The destination is every actor.
    All,
    /// The destination is every actor but the listed ones.
    AllExcept(Vec<ActorId>),
}

/// The mathematical model of a destination: the excluded actors are a sequence.
pub enum ToView {
    /// A specific actor.
    Actor(ActorId),
    /// Every actor.
    All,
    /// Every actor but the listed ones.
    AllExcept(Seq<ActorId>),
}

impl ToView {
    /// The text of the actor, `all`, or `all--` when some actors are left out.
    pub open spec fn text(self) -> Seq<char> {
        match self {
            ToView::Actor(aid) => aid.text_of(),
            ToView::All => "all"@,
            ToView::AllExcept(_) => "all--"@,
        }
    }
}

impl View for To {
    type V = ToView;

    open spec fn view(&self) -> ToView {
        match self {
            To::Actor(aid) => ToView::Actor(*aid),
            To::All => ToView::All,
            To::AllExcept(except) => ToView::AllExcept(except@),
        }
    }
}

impl Clone for To {
    fn clone(&self) -> (r: To)
        ensures
            r@ == self@,
    {
        match self {
            To::Actor(aid) => To::Actor(*aid),
            To::All => To::All,
            To::AllExcept(except) => {
                let copy = except.clone();
                proof {
                    assert(copy@ =~= except@);
                }
                To::AllExcept(copy)
            },
        }
    }
}

impl From<ActorId> for To {
    fn from(value: ActorId) -> (r: To) {
        To::Actor(value)
    }
}

impl vstd::std_specs::convert::FromSpecImpl<ActorId> for To {
    open spec fn obeys_from_spec() -> bool {
        true
    }

    open spec fn from_spec(v: ActorId) -> To {
        To::Actor(v)
    }
}

impl From<usize> for To {
    fn from(value: usize) -> (r: To) {
        To::Actor(ActorId::new(value))
    }
}

impl vstd::std_specs::convert::FromSpecImpl<usize> for To {
    open spec fn obeys_from_spec() -> bool {
        true
    }

    open spec fn from_spec(v: usize) -> To {
        To::Actor(ActorId::of(v))
    }
}

impl Text for To {
    /// The text of the actor, `all`, or `all--` when some actors are left out.
    open spec fn text_of(&self) -> Seq<char> {
        self@.text()
    }

    fn text(&self) -> (s: String) {
        match self {
            To::Actor(aid) => aid.text(),
            To::All => {
                proof {
                    reveal_strlit("all");
                }
                String::from_str("all")
            },
            To::AllExcept(_) => {
                proof {
                    reveal_strlit("all--");
                }
                String::from_str("all--")
            },
        }
    }
}

} // verus!
