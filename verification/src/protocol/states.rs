//! The states of the message builder.
use super::builder::BuildState;
use vstd::prelude::*;

verus! {

/// A new builder.
pub struct New {}

/// A builder with the origin set.
pub struct WithFromId {}

/// A builder with the origin and the destination set.
pub struct WithTo {}

/// A builder with the origin, the destination and the session set.
pub struct WithSessionId {}

/// A builder with everything but the sender set.
pub struct WithPayload {}

/// A builder ready to build.
pub struct Ready {}

impl BuildState for New {
    open spec fn has_origin() -> bool { false }
    open spec fn has_destination() -> bool { false }
    open spec fn has_session() -> bool { false }
    open spec fn has_payload() -> bool { false }
    open spec fn has_sender() -> bool { false }
}

impl BuildState for WithFromId {
    open spec fn has_origin() -> bool { true }
    open spec fn has_destination() -> bool { false }
    open spec fn has_session() -> bool { false }
    open spec fn has_payload() -> bool { false }
    open spec fn has_sender() -> bool { false }
}

impl BuildState for WithTo {
    open spec fn has_origin() -> bool { true }
    open spec fn has_destination() -> bool { true }
    open spec fn has_session() -> bool { false }
    open spec fn has_payload() -> bool { false }
    open spec fn has_sender() -> bool { false }
}

impl BuildState for WithSessionId {
    open spec fn has_origin() -> bool { true }
    open spec fn has_destination() -> bool { true }
    open spec fn has_session() -> bool { true }
    open spec fn has_payload() -> bool { false }
    open spec fn has_sender() -> bool { false }
}

impl BuildState for WithPayload {
    open spec fn has_origin() -> bool { true }
    open spec fn has_destination() -> bool { true }
    open spec fn has_session() -> bool { true }
    open spec fn has_payload() -> bool { true }
    open spec fn has_sender() -> bool { false }
}

impl BuildState for Ready {
    open spec fn has_origin() -> bool { true }
    open spec fn has_destination() -> bool { true }
    open spec fn has_session() -> bool { true }
    open spec fn has_payload() -> bool { true }
    open spec fn has_sender() -> bool { true }
}

} // verus!
