//! The states of the message builders: which parts are set.
use vstd::prelude::*;

verus! {

/// What each building state guarantees to be set.
pub trait HopBuildState {
    /// The origin is set.
    spec fn has_origin() -> bool;

    /// The destination is set.
    spec fn has_destination() -> bool;

    /// The payload is set.
    spec fn has_payload() -> bool;

    /// The hop is set.
    spec fn has_hop() -> bool;
}

/// A new builder.
pub struct New {}

/// A builder with the origin set.
pub struct WithFromId {}

/// A builder with the origin and the destination set.
pub struct WithToId {}

/// A builder with everything but the hop set.
pub struct WithPayload {}

/// A builder ready to build.
pub struct Ready {}

impl HopBuildState for New {
    open spec fn has_origin() -> bool { false }
    open spec fn has_destination() -> bool { false }
    open spec fn has_payload() -> bool { false }
    open spec fn has_hop() -> bool { false }
}

impl HopBuildState for WithFromId {
    open spec fn has_origin() -> bool { true }
    open spec fn has_destination() -> bool { false }
    open spec fn has_payload() -> bool { false }
    open spec fn has_hop() -> bool { false }
}

impl HopBuildState for WithToId {
    open spec fn has_origin() -> bool { true }
    open spec fn has_destination() -> bool { true }
    open spec fn has_payload() -> bool { false }
    open spec fn has_hop() -> bool { false }
}

impl HopBuildState for WithPayload {
    open spec fn has_origin() -> bool { true }
    open spec fn has_destination() -> bool { true }
    open spec fn has_payload() -> bool { true }
    open spec fn has_hop() -> bool { false }
}

impl HopBuildState for Ready {
    open spec fn has_origin() -> bool { true }
    open spec fn has_destination() -> bool { true }
    open spec fn has_payload() -> bool { true }
    open spec fn has_hop() -> bool { true }
}

} // verus!
