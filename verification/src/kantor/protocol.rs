//! Protocol messages: an origin, a destination, a session, the hop they
//! were last forwarded by, and a payload; with the builder that assembles them.
use super::states::{self, HopBuildState};
use super::{FromId, HopId, ToId, ToIdView};
use crate::actor::ActorId;
pub use crate::protocol::SessionId;
use std::marker::PhantomData;
use crate::text::Text;
use vstd::prelude::*;

verus! {

/// The mathematical model of a message.
pub struct MessageView<P> {
    /// Where the message comes from.
    pub fid: FromId,
    /// Where the message goes.
    pub tid: ToIdView,
    /// The session the message belongs to.
    pub sid: SessionId,
    /// The actor that forwarded the message on its current hop.
    pub hid: HopId,
    /// What the message carries.
    pub payload: P,
}

/// A protocol message.
pub struct Message<P> {
    pub(crate) fid: FromId,
    pub(crate) tid: ToId,
    pub(crate) sid: SessionId,
    pub(crate) hid: HopId,
    pub(crate) payload: P,
}

impl<P> View for Message<P> {
    type V = MessageView<P>;

    closed spec fn view(&self) -> MessageView<P> {
        MessageView { fid: self.fid, tid: self.tid@, sid: self.sid, hid: self.hid, payload: self.payload }
    }
}

impl<P> Message<P> {
    /// Gets the origin.
    pub fn fid(&self) -> (r: &FromId)
        ensures
            *r == self@.fid,
    {
        &self.fid
    }

    /// Gets the destination.
    pub fn tid(&self) -> (r: &ToId)
        ensures
            r@ == self@.tid,
    {
        &self.tid
    }

    /// Gets the session.
    pub fn sid(&self) -> (r: &SessionId)
        ensures
            *r == self@.sid,
    {
        &self.sid
    }

    /// Gets the hop.
    pub fn hid(&self) -> (r: &HopId)
        ensures
            *r == self@.hid,
    {
        &self.hid
    }

    /// Gets the payload.
    pub fn payload(&self) -> (r: &P)
        ensures
            *r == self@.payload,
    {
        &self.payload
    }
}

impl<P> actix::Message for Message<P> {
    type Result = ();
}

/// The mathematical model of a builder: the parts set so far.
pub struct BuilderView<P> {
    /// The origin, once set.
    pub fid: Option<FromId>,
    /// The destination, once set.
    pub tid: Option<ToIdView>,
    /// The session: the one of the message started from, or the first one.
    pub sid: SessionId,
    /// The hop, once set.
    pub hid: Option<HopId>,
    /// The payload, once set.
    pub payload: Option<P>,
}

impl<P> BuilderView<P> {
    /// Nothing set yet.
    pub open spec fn empty() -> BuilderView<P> {
        BuilderView { fid: None, tid: None, sid: SessionId::of(0), hid: None, payload: None }
    }

    /// Everything but the hop taken from a received message.
    pub open spec fn received(msg: MessageView<P>) -> BuilderView<P> {
        BuilderView {
            fid: Some(msg.fid),
            tid: Some(msg.tid),
            sid: msg.sid,
            hid: None,
            payload: Some(msg.payload),
        }
    }

    /// The origin replaced.
    pub open spec fn originating(self, fid: FromId) -> BuilderView<P> {
        BuilderView { fid: Some(fid), ..self }
    }

    /// The destination replaced.
    pub open spec fn addressed(self, tid: ToIdView) -> BuilderView<P> {
        BuilderView { tid: Some(tid), ..self }
    }

    /// The payload replaced.
    pub open spec fn carrying(self, payload: P) -> BuilderView<P> {
        BuilderView { payload: Some(payload), ..self }
    }

    /// The hop replaced.
    pub open spec fn hopped(self, aid: ActorId) -> BuilderView<P> {
        BuilderView { hid: Some(HopId::of(aid)), ..self }
    }

    /// Every part is set.
    pub open spec fn complete(self) -> bool {
        &&& self.fid is Some
        &&& self.tid is Some
        &&& self.hid is Some
        &&& self.payload is Some
    }

    /// The message made of the parts.
    pub open spec fn built(self) -> MessageView<P> {
        MessageView {
            fid: self.fid.unwrap(),
            tid: self.tid.unwrap(),
            sid: self.sid,
            hid: self.hid.unwrap(),
            payload: self.payload.unwrap(),
        }
    }
}

/// A builder for protocol messages.
pub struct ProtocolBuilder<P, S: HopBuildState = states::New> {
    fid: Option<FromId>,
    tid: Option<ToId>,
    sid: SessionId,
    hid: Option<HopId>,
    payload: Option<P>,
    phantom: PhantomData<S>,
}

impl<P, S: HopBuildState> View for ProtocolBuilder<P, S> {
    type V = BuilderView<P>;

    closed spec fn view(&self) -> BuilderView<P> {
        BuilderView {
            fid: self.fid,
            tid: match self.tid {
                Some(tid) => Some(tid@),
                None => None,
            },
            sid: self.sid,
            hid: self.hid,
            payload: self.payload,
        }
    }
}

impl<P, S: HopBuildState> ProtocolBuilder<P, S> {
    /// Every part that the state promises is set.
    #[verifier::type_invariant]
    closed spec fn parts_set(self) -> bool {
        &&& S::has_origin() ==> self.fid is Some
        &&& S::has_destination() ==> self.tid is Some
        &&& S::has_payload() ==> self.payload is Some
        &&& S::has_hop() ==> self.hid is Some
    }
}

impl<P> Default for ProtocolBuilder<P> {
    fn default() -> (b: Self)
        ensures
            b@ == BuilderView::<P>::empty(),
    {
        Self::new()
    }
}

impl<P> ProtocolBuilder<P, states::New> {
    /// A builder with nothing set.
    fn new() -> (b: ProtocolBuilder<P>)
        ensures
            b@ == BuilderView::<P>::empty(),
    {
        ProtocolBuilder {
            fid: None,
            tid: None,
            sid: SessionId::new(0),
            payload: None,
            hid: None,
            phantom: PhantomData,
        }
    }

    /// Initializes the building chain from a received message: everything
    /// but the hop is taken from it.
    pub fn from_message(msg: Message<P>) -> (b: ProtocolBuilder<P, states::WithPayload>)
        ensures
            b@ == BuilderView::received(msg@),
    {
        proof {
            msg.lemma_view_parts();
        }
        let Message { fid, tid, sid, hid: _, payload } = msg;
        ProtocolBuilder {
            fid: Some(fid),
            tid: Some(tid),
            sid,
            payload: Some(payload),
            hid: None,
            phantom: PhantomData,
        }
    }

    /// Initializes the building chain with a message originating from an
    /// actor, in the first session.
    pub fn from_aid(aid: ActorId) -> (b: ProtocolBuilder<P, states::WithFromId>)
        ensures
            b@ == BuilderView::<P>::empty().originating(FromId::FromActor(aid)),
    {
        ProtocolBuilder {
            fid: Some(FromId::FromActor(aid)),
            tid: None,
            sid: SessionId::new(0),
            payload: None,
            hid: None,
            phantom: PhantomData,
        }
    }
}

impl<P> ProtocolBuilder<P, states::WithFromId> {
    /// Continues the building chain by sending the message to one actor.
    pub fn to_actor(self, aid: ActorId) -> (b: ProtocolBuilder<P, states::WithToId>)
        ensures
            b@ == self@.addressed(ToIdView::ToActor(aid)),
    {
        proof {
            use_type_invariant(&self);
        }
        ProtocolBuilder {
            fid: self.fid,
            tid: Some(ToId::ToActor(aid)),
            sid: self.sid,
            payload: self.payload,
            hid: self.hid,
            phantom: PhantomData,
        }
    }

    /// Continues the building chain by sending the message to every actor.
    pub fn to_all_actors(self) -> (b: ProtocolBuilder<P, states::WithToId>)
        ensures
            b@ == self@.addressed(ToIdView::ToAllActors),
    {
        proof {
            use_type_invariant(&self);
        }
        ProtocolBuilder {
            fid: self.fid,
            tid: Some(ToId::ToAllActors),
            sid: self.sid,
            payload: self.payload,
            hid: self.hid,
            phantom: PhantomData,
        }
    }
}

impl<P> ProtocolBuilder<P, states::WithToId> {
    /// Continues the building chain by setting the payload.
    pub fn with_payload(self, payload: P) -> (b: ProtocolBuilder<P, states::WithPayload>)
        ensures
            b@ == self@.carrying(payload),
    {
        proof {
            use_type_invariant(&self);
        }
        ProtocolBuilder {
            fid: self.fid,
            tid: self.tid,
            sid: self.sid,
            payload: Some(payload),
            hid: self.hid,
            phantom: PhantomData,
        }
    }
}

impl<P> ProtocolBuilder<P, states::WithPayload> {
    /// Continues the building chain by setting the hop.
    pub fn with_hid(self, hid: ActorId) -> (b: ProtocolBuilder<P, states::Ready>)
        ensures
            b@ == self@.hopped(hid),
    {
        proof {
            use_type_invariant(&self);
        }
        ProtocolBuilder {
            fid: self.fid,
            tid: self.tid,
            sid: self.sid,
            payload: self.payload,
            hid: Some(HopId::from(hid)),
            phantom: PhantomData,
        }
    }
}

impl<P> ProtocolBuilder<P, states::Ready> {
    /// Finalizes the chain by building the message.
    pub fn build(self) -> (msg: Message<P>)
        ensures
            self@.complete(),
            msg@ == self@.built(),
    {
        proof {
            use_type_invariant(&self);
        }
        let msg = Message {
            fid: self.fid.unwrap(),
            tid: self.tid.unwrap(),
            sid: self.sid,
            hid: self.hid.unwrap(),
            payload: self.payload.unwrap(),
        };
        proof {
            msg.lemma_view_parts();
        }
        msg
    }
}

impl<P> Message<P> {
    /// The view is made of the parts of the message.
    pub(crate) proof fn lemma_view_parts(&self)
        ensures
            self@ == (MessageView { fid: self.fid, tid: self.tid@, sid: self.sid, hid: self.hid, payload: self.payload }),
    {
    }
}

/// Forwarding a received message under a new hop builds the same message
/// with only the hop replaced.
pub proof fn lemma_forward_replaces_only_hop<P>(msg: MessageView<P>, hop: ActorId)
    ensures
        BuilderView::received(msg).hopped(hop).complete(),
        BuilderView::received(msg).hopped(hop).built() == (MessageView { hid: HopId::of(hop), ..msg }),
{
}

/// A message started from an actor, assembled part by part, carries
/// exactly the parts it was given, in the first session.
pub proof fn lemma_assembled_message_carries_parts<P>(
    from: ActorId,
    tid: ToIdView,
    payload: P,
    hop: ActorId,
)
    ensures
        BuilderView::empty().originating(FromId::FromActor(from)).addressed(tid).carrying(
            payload,
        ).hopped(hop).complete(),
        BuilderView::empty().originating(FromId::FromActor(from)).addressed(tid).carrying(
            payload,
        ).hopped(hop).built() == (MessageView {
            fid: FromId::FromActor(from),
            tid,
            sid: SessionId::of(0),
            hid: HopId::of(hop),
            payload,
        }),
{
}

impl<P> From<ActorId> for ProtocolBuilder<P, states::WithFromId> {
    fn from(aid: ActorId) -> (b: Self) {
        ProtocolBuilder {
            fid: Some(FromId::FromActor(aid)),
            tid: None,
            sid: SessionId::new(0),
            payload: None,
            hid: None,
            phantom: PhantomData,
        }
    }
}

impl<P> vstd::std_specs::convert::FromSpecImpl<ActorId> for ProtocolBuilder<P, states::WithFromId> {
    open spec fn obeys_from_spec() -> bool {
        true
    }

    closed spec fn from_spec(aid: ActorId) -> Self {
        ProtocolBuilder {
            fid: Some(FromId::FromActor(aid)),
            tid: None,
            sid: SessionId::of(0),
            payload: None,
            hid: None,
            phantom: PhantomData,
        }
    }
}

impl<P> From<Message<P>> for ProtocolBuilder<P, states::WithPayload> {
    fn from(msg: Message<P>) -> (b: Self) {
        let Message { fid, tid, sid, hid: _, payload } = msg;
        ProtocolBuilder {
            fid: Some(fid),
            tid: Some(tid),
            sid,
            payload: Some(payload),
            hid: None,
            phantom: PhantomData,
        }
    }
}

impl<P> vstd::std_specs::convert::FromSpecImpl<Message<P>> for ProtocolBuilder<P, states::WithPayload> {
    open spec fn obeys_from_spec() -> bool {
        true
    }

    closed spec fn from_spec(msg: Message<P>) -> Self {
        ProtocolBuilder {
            fid: Some(msg.fid),
            tid: Some(msg.tid),
            sid: msg.sid,
            payload: Some(msg.payload),
            hid: None,
            phantom: PhantomData,
        }
    }
}

/// Building from an actor through `From` starts the same chain as `from_aid`.
pub proof fn lemma_from_actor_starts_chain<P>(aid: ActorId)
    ensures
        <ProtocolBuilder<P, states::WithFromId> as vstd::std_specs::convert::FromSpec<ActorId>>::from_spec(aid)@
            == BuilderView::<P>::empty().originating(FromId::FromActor(aid)),
{
}

/// Building from a message through `From` starts the same chain as `from_message`.
pub proof fn lemma_from_message_starts_chain<P>(msg: Message<P>)
    ensures
        <ProtocolBuilder<P, states::WithPayload> as vstd::std_specs::convert::FromSpec<Message<P>>>::from_spec(msg)@
            == BuilderView::received(msg@),
{
}

impl<P> Text for Message<P> {
    /// `[session] [origin-->destination] [hop]`.
    open spec fn text_of(&self) -> Seq<char> {
        "["@ + self@.sid.text_of() + "] ["@ + self@.fid.text_of() + "-->"@ + self@.tid.text() + "] ["@
            + self@.hid.text_of() + "]"@
    }

    fn text(&self) -> (s: String) {
        proof {
            reveal_strlit("[");
            reveal_strlit("] [");
            reveal_strlit("-->");
            reveal_strlit("]");
            self.lemma_view_parts();
        }
        let mut s = String::from_str("[");
        let sid = self.sid.text();
        s.append(sid.as_str());
        s.append("] [");
        let fid = self.fid.text();
        s.append(fid.as_str());
        s.append("-->");
        let tid = self.tid.text();
        s.append(tid.as_str());
        s.append("] [");
        let hid = self.hid.text();
        s.append(hid.as_str());
        s.append("]");
        s
    }
}

/// The text of a message shows, in brackets, its session, then its origin
/// and destination joined by `-->`, then its hop. The destination reads as
/// the one actor it names, as `all` for every actor, and as `all--` for
/// every actor but some.
pub proof fn lemma_message_text<P>(m: Message<P>)
    ensures
        m.text_of() == "["@ + m@.sid.text_of() + "] ["@ + m@.fid.text_of() + "-->"@ + m@.tid.text() + "] ["@
            + m@.hid.text_of() + "]"@,
        m@.tid matches ToIdView::ToActor(aid) ==> m.text_of() == "["@ + m@.sid.text_of() + "] ["@
            + m@.fid.text_of() + "-->"@ + aid.text_of() + "] ["@ + m@.hid.text_of() + "]"@,
        m@.tid is ToAllActors ==> m.text_of() == "["@ + m@.sid.text_of() + "] ["@ + m@.fid.text_of()
            + "-->"@ + "all"@ + "] ["@ + m@.hid.text_of() + "]"@,
        m@.tid is ToAllActorsExcept ==> m.text_of() == "["@ + m@.sid.text_of() + "] ["@
            + m@.fid.text_of() + "-->"@ + "all--"@ + "] ["@ + m@.hid.text_of() + "]"@,
{
}

impl<P: Clone> Clone for Message<P> {
    /// A copy with the same routing parts and a clone of the payload.
    fn clone(&self) -> (r: Message<P>)
        ensures
            r@.fid == self@.fid,
            r@.tid == self@.tid,
            r@.sid == self@.sid,
            r@.hid == self@.hid,
            cloned::<P>(self@.payload, r@.payload),
    {
        proof {
            self.lemma_view_parts();
        }
        let r = Message {
            fid: self.fid,
            tid: self.tid.clone(),
            sid: self.sid,
            hid: self.hid,
            payload: self.payload.clone(),
        };
        proof {
            r.lemma_view_parts();
        }
        r
    }
}

} // verus!
