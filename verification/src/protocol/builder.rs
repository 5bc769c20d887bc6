//! The builder pattern for protocol messages. The type parameter `S`
//! records which parts of the message are already set, so that only a
//! complete message can be built.
use super::states;
use super::{FromId, Message, MessageView, SenderId, SessionId, To, ToView};
use crate::actor::ActorId;
use std::marker::PhantomData;
use vstd::prelude::*;

verus! {

/// What each building state guarantees to be set.
pub trait BuildState {
    /// The origin is set.
    spec fn has_origin() -> bool;

    /// The destination is set.
    spec fn has_destination() -> bool;

    /// The session is set.
    spec fn has_session() -> bool;

    /// The payload is set.
    spec fn has_payload() -> bool;

    /// The sender is set.
    spec fn has_sender() -> bool;
}


/// The mathematical model of a builder: the parts of the message set so far.
pub struct BuilderView<P> {
    /// The origin, once set.
    pub fid: Option<FromId>,
    /// The destination, once set.
    pub to: Option<ToView>,
    /// The session, once set.
    pub sid: Option<SessionId>,
    /// The sender, once set.
    pub sender: Option<SenderId>,
    /// The payload, once set.
    pub payload: Option<P>,
}

impl<P> BuilderView<P> {
    /// Nothing set yet.
    pub open spec fn empty() -> BuilderView<P> {
        BuilderView { fid: None, to: None, sid: None, sender: None, payload: None }
    }

    /// Everything but the sender taken from a received message.
    pub open spec fn received(msg: MessageView<P>) -> BuilderView<P> {
        BuilderView {
            fid: Some(msg.fid),
            to: Some(msg.to),
            sid: Some(msg.sid),
            sender: None,
            payload: Some(msg.payload),
        }
    }

    /// Only the origin set.
    pub open spec fn originating(fid: FromId) -> BuilderView<P> {
        BuilderView { fid: Some(fid), ..BuilderView::empty() }
    }

    /// The origin, the destination and the session of a message.
    pub open spec fn answering(msg: MessageView<P>) -> BuilderView<P> {
        BuilderView { fid: Some(msg.fid), to: Some(msg.to), sid: Some(msg.sid), ..BuilderView::empty() }
    }

    /// The destination replaced.
    pub open spec fn addressed(self, to: ToView) -> BuilderView<P> {
        BuilderView { to: Some(to), ..self }
    }

    /// The session replaced.
    pub open spec fn in_session(self, sid: SessionId) -> BuilderView<P> {
        BuilderView { sid: Some(sid), ..self }
    }

    /// The payload replaced.
    pub open spec fn carrying(self, payload: P) -> BuilderView<P> {
        BuilderView { payload: Some(payload), ..self }
    }

    /// The sender replaced.
    pub open spec fn sent_by(self, sender: ActorId) -> BuilderView<P> {
        BuilderView { sender: Some(SenderId::of(sender)), ..self }
    }

    /// Every part is set.
    pub open spec fn complete(self) -> bool {
        &&& self.fid is Some
        &&& self.to is Some
        &&& self.sid is Some
        &&& self.sender is Some
        &&& self.payload is Some
    }

    /// The message made of the parts.
    pub open spec fn built(self) -> MessageView<P> {
        MessageView {
            fid: self.fid.unwrap(),
            to: self.to.unwrap(),
            sid: self.sid.unwrap(),
            sender: self.sender.unwrap(),
            payload: self.payload.unwrap(),
        }
    }
}

/// A builder for protocol messages.
pub struct Builder<P, S: BuildState = states::New> {
    fid: Option<FromId>,
    to: Option<To>,
    sid: Option<SessionId>,
    sender: Option<SenderId>,
    payload: Option<P>,
    phantom: PhantomData<S>,
}

impl<P, S: BuildState> View for Builder<P, S> {
    type V = BuilderView<P>;

    closed spec fn view(&self) -> BuilderView<P> {
        BuilderView {
            fid: self.fid,
            to: match self.to {
                Some(to) => Some(to@),
                None => None,
            },
            sid: self.sid,
            sender: self.sender,
            payload: self.payload,
        }
    }
}

impl<P, S: BuildState> Builder<P, S> {
    /// Every part that the state promises is set.
    #[verifier::type_invariant]
    closed spec fn parts_set(self) -> bool {
        &&& S::has_origin() ==> self.fid is Some
        &&& S::has_destination() ==> self.to is Some
        &&& S::has_session() ==> self.sid is Some
        &&& S::has_payload() ==> self.payload is Some
        &&& S::has_sender() ==> self.sender is Some
    }
}

impl<P> Default for Builder<P> {
    fn default() -> (b: Self)
        ensures
            b@ == BuilderView::<P>::empty(),
    {
        Self::new()
    }
}

impl<P> Builder<P, states::New> {
    fn new() -> (b: Builder<P>)
        ensures
            b@ == BuilderView::<P>::empty(),
    {
        Builder { fid: None, to: None, sid: None, payload: None, sender: None, phantom: PhantomData }
    }

    /// Initializes the building chain from a received message: everything
    /// but the sender is taken from it.
    pub fn with_message(msg: Message<P>) -> (b: Builder<P, states::WithPayload>)
        ensures
            b@ == BuilderView::received(msg@),
    {
        proof {
            msg.lemma_view_parts();
        }
        let Message { fid, to, sid, sender: _, payload } = msg;
        Builder {
            fid: Some(fid),
            to: Some(to),
            sid: Some(sid),
            payload: Some(payload),
            sender: None,
            phantom: PhantomData,
        }
    }

    /// Initializes the building chain with a message originating from an actor.
    pub fn with_from_actor(aid: ActorId) -> (b: Builder<P, states::WithFromId>)
        ensures
            b@ == BuilderView::<P>::originating(FromId::Actor(aid)),
    {
        Builder {
            fid: Some(FromId::Actor(aid)),
            to: None,
            sid: None,
            payload: None,
            sender: None,
            phantom: PhantomData,
        }
    }

    /// Initializes the building chain with a message originating from an api invocation.
    pub fn with_from_api() -> (b: Builder<P, states::WithFromId>)
        ensures
            b@ == BuilderView::<P>::originating(FromId::Api),
    {
        Builder { fid: Some(FromId::Api), to: None, sid: None, payload: None, sender: None, phantom: PhantomData }
    }

    /// Initializes the building chain with the origin, the destination and
    /// the session of a given message.
    pub fn with_from_to(msg: &Message<P>) -> (b: Builder<P, states::WithTo>)
        ensures
            b@ == BuilderView::answering(msg@),
    {
        let fid = *msg.from();
        let to = msg.to().clone();
        let sid = *msg.session();
        Builder { fid: Some(fid), to: Some(to), sid: Some(sid), payload: None, sender: None, phantom: PhantomData }
    }
}

impl<P> Builder<P, states::WithFromId> {
    /// Continues the building chain by sending the message to one actor.
    pub fn with_to_actor(self, aid: ActorId) -> (b: Builder<P, states::WithTo>)
        ensures
            b@ == self@.addressed(ToView::Actor(aid)),
    {
        proof {
            use_type_invariant(&self);
        }
        Builder {
            fid: self.fid,
            to: Some(To::Actor(aid)),
            sid: self.sid,
            payload: self.payload,
            sender: self.sender,
            phantom: PhantomData,
        }
    }

    /// Continues the building chain by sending the message to every actor.
    pub fn with_to_all_actors(self) -> (b: Builder<P, states::WithTo>)
        ensures
            b@ == self@.addressed(ToView::All),
    {
        proof {
            use_type_invariant(&self);
        }
        Builder {
            fid: self.fid,
            to: Some(To::All),
            sid: self.sid,
            payload: self.payload,
            sender: self.sender,
            phantom: PhantomData,
        }
    }
}

impl<P> Builder<P, states::WithTo> {
    /// Continues the building chain by setting the session.
    pub fn with_session(self, sid: SessionId) -> (b: Builder<P, states::WithSessionId>)
        ensures
            b@ == self@.in_session(sid),
    {
        proof {
            use_type_invariant(&self);
        }
        Builder {
            fid: self.fid,
            to: self.to,
            sid: Some(sid),
            payload: self.payload,
            sender: self.sender,
            phantom: PhantomData,
        }
    }
}

impl<P> Builder<P, states::WithSessionId> {
    /// Continues the building chain by setting the payload.
    pub fn with_payload(self, payload: P) -> (b: Builder<P, states::WithPayload>)
        ensures
            b@ == self@.carrying(payload),
    {
        proof {
            use_type_invariant(&self);
        }
        Builder {
            fid: self.fid,
            to: self.to,
            sid: self.sid,
            payload: Some(payload),
            sender: self.sender,
            phantom: PhantomData,
        }
    }
}

impl<P> Builder<P, states::WithPayload> {
    /// Continues the building chain by setting the sender of the leg.
    pub fn with_sender(self, sender: ActorId) -> (b: Builder<P, states::Ready>)
        ensures
            b@ == self@.sent_by(sender),
    {
        proof {
            use_type_invariant(&self);
        }
        Builder {
            fid: self.fid,
            to: self.to,
            sid: self.sid,
            payload: self.payload,
            sender: Some(SenderId::from(sender)),
            phantom: PhantomData,
        }
    }
}

impl<P> Builder<P, states::Ready> {
    /// Finalizes the chain by building the message.
    pub fn build(self) -> (msg: Message<P>)
        ensures
            self@.complete(),
            msg@ == self@.built(),
    {
        proof {
            use_type_invariant(&self);
        }
        let msg = Message {
            fid: self.fid.unwrap(),
            to: self.to.unwrap(),
            sid: self.sid.unwrap(),
            sender: self.sender.unwrap(),
            payload: self.payload.unwrap(),
        };
        proof {
            msg.lemma_view_parts();
        }
        msg
    }
}

/// Forwarding a received message under a new sender builds the same
/// message with only the sender replaced.
pub proof fn lemma_forward_replaces_only_sender<P>(msg: MessageView<P>, sender: ActorId)
    ensures
        BuilderView::received(msg).sent_by(sender).complete(),
        BuilderView::received(msg).sent_by(sender).built() == (MessageView {
            sender: SenderId::of(sender),
            ..msg
        }),
{
}

/// A message assembled part by part carries exactly the parts it was given.
pub proof fn lemma_assembled_message_carries_parts<P>(
    fid: FromId,
    to: ToView,
    sid: SessionId,
    payload: P,
    sender: ActorId,
)
    ensures
        BuilderView::originating(fid).addressed(to).in_session(sid).carrying(payload).sent_by(
            sender,
        ).complete(),
        BuilderView::originating(fid).addressed(to).in_session(sid).carrying(payload).sent_by(
            sender,
        ).built() == (MessageView { fid, to, sid, sender: SenderId::of(sender), payload }),
{
}

/// A message started from another one keeps its origin and destination,
/// and carries the session, payload and sender it was given.
pub proof fn lemma_answer_keeps_route<P>(
    msg: MessageView<P>,
    sid: SessionId,
    payload: P,
    sender: ActorId,
)
    ensures
        BuilderView::answering(msg).in_session(sid).carrying(payload).sent_by(sender).complete(),
        BuilderView::answering(msg).in_session(sid).carrying(payload).sent_by(sender).built() == (
        MessageView { fid: msg.fid, to: msg.to, sid, sender: SenderId::of(sender), payload }),
{
}

} // verus!
