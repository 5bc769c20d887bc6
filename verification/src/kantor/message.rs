//! Plain messages: an origin, a destination, the hop they were last
//! forwarded by, and a payload; with the builder that assembles them.
use super::states::{self, HopBuildState};
use super::{FromId, HopId, ToId, ToIdView};
use crate::actor::ActorId;
use std::marker::PhantomData;
use vstd::prelude::*;

verus! {

/// The mathematical model of a message.
pub struct MessageView<P> {
    /// Where the message comes from.
    pub fid: FromId,
    /// Where the message goes.
    pub tid: ToIdView,
    /// The actor that forwarded the message on its current hop.
    pub hid: HopId,
    /// What the message carries.
    pub payload: P,
}

/// A message.
pub struct Message<P> {
    pub(crate) fid: FromId,
    pub(crate) tid: ToId,
    pub(crate) hid: HopId,
    pub(crate) payload: P,
}

impl<P> View for Message<P> {
    type V = MessageView<P>;

    closed spec fn view(&self) -> MessageView<P> {
        MessageView { fid: self.fid, tid: self.tid@, hid: self.hid, payload: self.payload }
    }
}

impl<P> Message<P> {
    /// Gets the origin.
    pub fn fid(&self) -> (r: &FromId)
        ensures
            *r == self@.fid,
    {
        &self.fid
    }

    /// Gets the destination.
    pub fn tid(&self) -> (r: &ToId)
        ensures
            r@ == self@.tid,
    {
        &self.tid
    }

    /// Gets the hop.
    pub fn hid(&self) -> (r: &HopId)
        ensures
            *r == self@.hid,
    {
        &self.hid
    }

    /// Gets the payload.
    pub fn payload(&self) -> (r: &P)
        ensures
            *r == self@.payload,
    {
        &self.payload
    }
}

impl<P> actix::Message for Message<P> {
    type Result = ();
}

/// The mathematical model of a builder: the parts set so far.
pub struct BuilderView<P> {
    /// The origin, once set.
    pub fid: Option<FromId>,
    /// The destination, once set.
    pub tid: Option<ToIdView>,
    /// The hop, once set.
    pub hid: Option<HopId>,
    /// The payload, once set.
    pub payload: Option<P>,
}

impl<P> BuilderView<P> {
    /// Nothing set yet.
    pub open spec fn empty() -> BuilderView<P> {
        BuilderView { fid: None, tid: None, hid: None, payload: None }
    }

    /// Everything but the hop taken from a received message.
    pub open spec fn received(msg: MessageView<P>) -> BuilderView<P> {
        BuilderView { fid: Some(msg.fid), tid: Some(msg.tid), hid: None, payload: Some(msg.payload) }
    }

    /// The origin replaced.
    pub open spec fn originating(self, fid: FromId) -> BuilderView<P> {
        BuilderView { fid: Some(fid), ..self }
    }

    /// The destination replaced.
    pub open spec fn addressed(self, tid: ToIdView) -> BuilderView<P> {
        BuilderView { tid: Some(tid), ..self }
    }

    /// The payload replaced.
    pub open spec fn carrying(self, payload: P) -> BuilderView<P> {
        BuilderView { payload: Some(payload), ..self }
    }

    /// The hop replaced.
    pub open spec fn hopped(self, aid: ActorId) -> BuilderView<P> {
        BuilderView { hid: Some(HopId::of(aid)), ..self }
    }

    /// Every part is set.
    pub open spec fn complete(self) -> bool {
        &&& self.fid is Some
        &&& self.tid is Some
        &&& self.hid is Some
        &&& self.payload is Some
    }

    /// The message made of the parts.
    pub open spec fn built(self) -> MessageView<P> {
        MessageView {
            fid: self.fid.unwrap(),
            tid: self.tid.unwrap(),
            hid: self.hid.unwrap(),
            payload: self.payload.unwrap(),
        }
    }
}

/// A builder for messages.
pub struct Builder<P, S: HopBuildState = states::New> {
    fid: Option<FromId>,
    tid: Option<ToId>,
    hid: Option<HopId>,
    payload: Option<P>,
    phantom: PhantomData<S>,
}

impl<P, S: HopBuildState> View for Builder<P, S> {
    type V = BuilderView<P>;

    closed spec fn view(&self) -> BuilderView<P> {
        BuilderView {
            fid: self.fid,
            tid: match self.tid {
                Some(tid) => Some(tid@),
                None => None,
            },
            hid: self.hid,
            payload: self.payload,
        }
    }
}

impl<P, S: HopBuildState> Builder<P, S> {
    /// Every part that the state promises is set.
    #[verifier::type_invariant]
    closed spec fn parts_set(self) -> bool {
        &&& S::has_origin() ==> self.fid is Some
        &&& S::has_destination() ==> self.tid is Some
        &&& S::has_payload() ==> self.payload is Some
        &&& S::has_hop() ==> self.hid is Some
    }
}

impl<P> Default for Builder<P> {
    fn default() -> (b: Self)
        ensures
            b@ == BuilderView::<P>::empty(),
    {
        Self::new()
    }
}

impl<P> Builder<P, states::New> {
    /// A builder with nothing set.
    pub fn new() -> (b: Builder<P>)
        ensures
            b@ == BuilderView::<P>::empty(),
    {
        Builder { fid: None, tid: None, payload: None, hid: None, phantom: PhantomData }
    }

    /// Initializes the building chain from a received message: everything
    /// but the hop is taken from it.
    pub fn from_message(msg: Message<P>) -> (b: Builder<P, states::WithPayload>)
        ensures
            b@ == BuilderView::received(msg@),
    {
        proof {
            msg.lemma_view_parts();
        }
        let Message { fid, tid, hid: _, payload } = msg;
        Builder { fid: Some(fid), tid: Some(tid), payload: Some(payload), hid: None, phantom: PhantomData }
    }

    /// Continues the building chain with a message originating from an actor.
    pub fn from_actor(self, aid: ActorId) -> (b: Builder<P, states::WithFromId>)
        ensures
            b@ == self@.originating(FromId::FromActor(aid)),
    {
        Builder {
            fid: Some(FromId::FromActor(aid)),
            tid: self.tid,
            payload: self.payload,
            hid: self.hid,
            phantom: PhantomData,
        }
    }
}

impl<P> Builder<P, states::WithFromId> {
    /// Continues the building chain by sending the message to one actor.
    pub fn to_actor(self, aid: ActorId) -> (b: Builder<P, states::WithToId>)
        ensures
            b@ == self@.addressed(ToIdView::ToActor(aid)),
    {
        proof {
            use_type_invariant(&self);
        }
        Builder {
            fid: self.fid,
            tid: Some(ToId::ToActor(aid)),
            payload: self.payload,
            hid: self.hid,
            phantom: PhantomData,
        }
    }

    /// Continues the building chain by sending the message to every actor.
    pub fn to_all_actors(self) -> (b: Builder<P, states::WithToId>)
        ensures
            b@ == self@.addressed(ToIdView::ToAllActors),
    {
        proof {
            use_type_invariant(&self);
        }
        Builder {
            fid: self.fid,
            tid: Some(ToId::ToAllActors),
            payload: self.payload,
            hid: self.hid,
            phantom: PhantomData,
        }
    }
}

impl<P> Builder<P, states::WithToId> {
    /// Continues the building chain by setting the payload.
    pub fn with_payload(self, payload: P) -> (b: Builder<P, states::WithPayload>)
        ensures
            b@ == self@.carrying(payload),
    {
        proof {
            use_type_invariant(&self);
        }
        Builder { fid: self.fid, tid: self.tid, payload: Some(payload), hid: self.hid, phantom: PhantomData }
    }
}

impl<P> Builder<P, states::WithPayload> {
    /// Continues the building chain by setting the hop.
    pub fn with_hid(self, hid: ActorId) -> (b: Builder<P, states::Ready>)
        ensures
            b@ == self@.hopped(hid),
    {
        proof {
            use_type_invariant(&self);
        }
        Builder {
            fid: self.fid,
            tid: self.tid,
            payload: self.payload,
            hid: Some(HopId::from(hid)),
            phantom: PhantomData,
        }
    }
}

impl<P> Builder<P, states::Ready> {
    /// Finalizes the chain by building the message.
    pub fn build(self) -> (msg: Message<P>)
        ensures
            self@.complete(),
            msg@ == self@.built(),
    {
        proof {
            use_type_invariant(&self);
        }
        let msg = Message {
            fid: self.fid.unwrap(),
            tid: self.tid.unwrap(),
            hid: self.hid.unwrap(),
            payload: self.payload.unwrap(),
        };
        proof {
            msg.lemma_view_parts();
        }
        msg
    }
}

impl<P> Message<P> {
    /// The view is made of the parts of the message.
    pub(crate) proof fn lemma_view_parts(&self)
        ensures
            self@ == (MessageView { fid: self.fid, tid: self.tid@, hid: self.hid, payload: self.payload }),
    {
    }
}

/// Forwarding a received message under a new hop builds the same message
/// with only the hop replaced.
pub proof fn lemma_forward_replaces_only_hop<P>(msg: MessageView<P>, hop: ActorId)
    ensures
        BuilderView::received(msg).hopped(hop).complete(),
        BuilderView::received(msg).hopped(hop).built() == (MessageView { hid: HopId::of(hop), ..msg }),
{
}

/// A message assembled part by part carries exactly the parts it was given.
pub proof fn lemma_assembled_message_carries_parts<P>(
    from: ActorId,
    tid: ToIdView,
    payload: P,
    hop: ActorId,
)
    ensures
        BuilderView::empty().originating(FromId::FromActor(from)).addressed(tid).carrying(
            payload,
        ).hopped(hop).complete(),
        BuilderView::empty().originating(FromId::FromActor(from)).addressed(tid).carrying(
            payload,
        ).hopped(hop).built() == (MessageView {
            fid: FromId::FromActor(from),
            tid,
            hid: HopId::of(hop),
            payload,
        }),
{
}

impl<P: Clone> Clone for Message<P> {
    /// A copy with the same routing parts and a clone of the payload.
    fn clone(&self) -> (r: Message<P>)
        ensures
            r@.fid == self@.fid,
            r@.tid == self@.tid,
            r@.hid == self@.hid,
            cloned::<P>(self@.payload, r@.payload),
    {
        proof {
            self.lemma_view_parts();
        }
        let r = Message {
            fid: self.fid,
            tid: self.tid.clone(),
            hid: self.hid,
            payload: self.payload.clone(),
        };
        proof {
            r.lemma_view_parts();
        }
        r
    }
}

} // verus!
