use crate::text::{decimal, decimal_string, Text};
use vstd::prelude::*;

verus! {

/// A protocol session: the run of an algorithm that a message belongs to.
#[derive(Clone, Copy, Debug, PartialEq, Eq, Structural)]
pub struct SessionId(usize);

/// Another name for a session.
pub type Session = SessionId;

impl SessionId {
    /// The number of the session.
    pub closed spec fn id(self) -> nat {
        self.0 as nat
    }

    /// The session numbered `value`.
    pub closed spec fn of(value: usize) -> SessionId {
        SessionId(value)
    }

    /// Builds the session numbered `value`.
    pub fn new(value: usize) -> (s: SessionId)
        ensures
            s == SessionId::of(value),
    {
        SessionId(value)
    }

    /// Retrieves the number of the session.
    pub fn inner(&self) -> (v: usize)
        ensures
            v == self.id(),
    {
        self.0
    }
}

/// The session numbered `value` carries that number.
pub broadcast proof fn lemma_session_of(value: usize)
    ensures
        #[trigger] SessionId::of(value).id() == value,
{
}

/// Two sessions are equal exactly when they carry the same number.
pub broadcast proof fn lemma_session_id_determines(a: SessionId, b: SessionId)
    ensures
        #[trigger] a.id() == #[trigger] b.id() <==> a == b,
{
}

impl From<usize> for SessionId {
    fn from(value: usize) -> (s: SessionId) {
        SessionId(value)
    }
}

impl vstd::std_specs::convert::FromSpecImpl<usize> for SessionId {
    open spec fn obeys_from_spec() -> bool {
        true
    }

    open spec fn from_spec(v: usize) -> SessionId {
        SessionId::of(v)
    }
}

impl Text for SessionId {
    /// The number of the session.
    open spec fn text_of(&self) -> Seq<char> {
        decimal(self.id())
    }

    fn text(&self) -> (s: String) {
        decimal_string(self.0 as u64)
    }
}

} // verus!
