//! The builder pattern for proxies: first the neighbour, then the handle
//! that reaches it.
use super::{MetricsView, Proxy, ProxyView};
use crate::actor::ActorId;
use std::marker::PhantomData;
use vstd::prelude::*;

verus! {

/// The states of the proxy builder.
pub trait ProxyBuildState {
    /// The handle is set.
    spec fn has_recipient() -> bool;
}

/// A builder with the neighbour set.
pub struct WithActorId {}

/// A builder ready to build.
pub struct Ready {}

impl ProxyBuildState for WithActorId {
    open spec fn has_recipient() -> bool {
        false
    }
}

impl ProxyBuildState for Ready {
    open spec fn has_recipient() -> bool {
        true
    }
}

/// A builder for proxies.
pub struct Builder<R, S: ProxyBuildState = WithActorId> {
    aid: ActorId,
    recipient: Option<R>,
    phantom: PhantomData<S>,
}

impl<R, S: ProxyBuildState> Builder<R, S> {
    /// The neighbour of the proxy being built.
    pub closed spec fn neighbour(self) -> ActorId {
        self.aid
    }

    /// The handle of the proxy being built, once set.
    pub closed spec fn handle(self) -> Option<R> {
        self.recipient
    }

    /// A ready builder has its handle.
    #[verifier::type_invariant]
    closed spec fn handle_set(self) -> bool {
        S::has_recipient() ==> self.recipient is Some
    }
}

impl<R> Builder<R> {
    /// Starts the chain from the neighbour the proxy reaches.
    pub fn from_aid(aid: ActorId) -> (b: Self)
        ensures
            b.neighbour() == aid,
            b.handle() is None,
    {
        Builder { aid, recipient: None, phantom: PhantomData }
    }

    /// Continues the chain with the handle that reaches the neighbour.
    pub fn with_recipient(self, recipient: R) -> (b: Builder<R, Ready>)
        ensures
            b.neighbour() == self.neighbour(),
            b.handle() == Some(recipient),
    {
        Builder { aid: self.aid, recipient: Some(recipient), phantom: PhantomData }
    }
}

impl<R> Builder<R, Ready> {
    /// Builds the proxy, with no message sent through it yet.
    pub fn build(self) -> (p: Proxy<R>)
        ensures
            self.handle() is Some,
            p@ == (ProxyView {
                aid: self.neighbour(),
                next_mid: 0,
                metrics: MetricsView { total: 0, successes: 0, failures: 0 },
                pending: 0,
                recipient: self.handle().unwrap(),
            }),
    {
        proof {
            use_type_invariant(&self);
        }
        Proxy::new(self.aid, self.recipient.unwrap())
    }
}

impl<R> From<ActorId> for Builder<R> {
    fn from(value: ActorId) -> (b: Self) {
        Builder { aid: value, recipient: None, phantom: PhantomData }
    }
}

impl<R> vstd::std_specs::convert::FromSpecImpl<ActorId> for Builder<R> {
    open spec fn obeys_from_spec() -> bool {
        true
    }

    closed spec fn from_spec(value: ActorId) -> Self {
        Builder { aid: value, recipient: None, phantom: PhantomData }
    }
}

} // verus!
