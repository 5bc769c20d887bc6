use super::{FromId, SenderId, SessionId, To, ToView};
use crate::text::Text;
use vstd::prelude::*;

verus! {

/// The mathematical model of a protocol message.
pub struct MessageView<P> {
    /// Where the message comes from.
    pub fid: FromId,
    /// Where the message goes.
    pub to: ToView,
    /// The session the message belongs to.
    pub sid: SessionId,
    /// The actor that sent the message on its current leg.
    pub sender: SenderId,
    /// What the message carries.
    pub payload: P,
}

/// A protocol message.
pub struct Message<P> {
    pub(crate) fid: FromId,
    pub(crate) to: To,
    pub(crate) sid: SessionId,
    pub(crate) sender: SenderId,
    pub(crate) payload: P,
}

impl<P> View for Message<P> {
    type V = MessageView<P>;

    closed spec fn view(&self) -> MessageView<P> {
        MessageView {
            fid: self.fid,
            to: self.to@,
            sid: self.sid,
            sender: self.sender,
            payload: self.payload,
        }
    }
}

impl<P> Message<P> {
    /// The view is made of the parts of the message.
    pub(crate) proof fn lemma_view_parts(&self)
        ensures
            self@ == (MessageView {
                fid: self.fid,
                to: self.to@,
                sid: self.sid,
                sender: self.sender,
                payload: self.payload,
            }),
    {
    }

    /// Gets the origin of the message.
    pub fn from(&self) -> (r: &FromId)
        ensures
            *r == self@.fid,
    {
        &self.fid
    }

    /// Gets the destination of the message.
    pub fn to(&self) -> (r: &To)
        ensures
            r@ == self@.to,
    {
        &self.to
    }

    /// Gets the session of the message.
    pub fn session(&self) -> (r: &SessionId)
        ensures
            *r == self@.sid,
    {
        &self.sid
    }

    /// Gets the sender of the current leg.
    pub fn sender(&self) -> (r: &SenderId)
        ensures
            *r == self@.sender,
    {
        &self.sender
    }

    /// Gets the payload.
    pub fn payload(&self) -> (r: &P)
        ensures
            *r == self@.payload,
    {
        &self.payload
    }
}

impl<P> actix::Message for Message<P> {
    type Result = ();
}

impl<P> Text for Message<P> {
    /// `[session] [origin-->destination] [sender]`.
    open spec fn text_of(&self) -> Seq<char> {
        "["@ + self@.sid.text_of() + "] ["@ + self@.fid.text_of() + "-->"@ + self@.to.text() + "] ["@
            + self@.sender.text_of() + "]"@
    }

    fn text(&self) -> (s: String) {
        proof {
            reveal_strlit("[");
            reveal_strlit("] [");
            reveal_strlit("-->");
            reveal_strlit("]");
        }
        proof {
            self.lemma_view_parts();
        }
        let mut s = String::from_str("[");
        let sid = self.sid.text();
        s.append(sid.as_str());
        s.append("] [");
        let fid = self.fid.text();
        s.append(fid.as_str());
        s.append("-->");
        let to = self.to.text();
        s.append(to.as_str());
        s.append("] [");
        let sender = self.sender.text();
        s.append(sender.as_str());
        s.append("]");
        s
    }
}

/// The text of a message shows, in brackets, its session, then its origin
/// and destination joined by `-->`, then its sender. The destination reads
/// as the one actor it names, as `all` for every actor, and as `all--` for
/// every actor but some.
pub proof fn lemma_message_text<P>(m: Message<P>)
    ensures
        m.text_of() == "["@ + m@.sid.text_of() + "] ["@ + m@.fid.text_of() + "-->"@ + m@.to.text() + "] ["@
            + m@.sender.text_of() + "]"@,
        m@.to matches ToView::Actor(aid) ==> m.text_of() == "["@ + m@.sid.text_of() + "] ["@
            + m@.fid.text_of() + "-->"@ + aid.text_of() + "] ["@ + m@.sender.text_of() + "]"@,
        m@.to is All ==> m.text_of() == "["@ + m@.sid.text_of() + "] ["@ + m@.fid.text_of() + "-->"@
            + "all"@ + "] ["@ + m@.sender.text_of() + "]"@,
        m@.to is AllExcept ==> m.text_of() == "["@ + m@.sid.text_of() + "] ["@ + m@.fid.text_of()
            + "-->"@ + "all--"@ + "] ["@ + m@.sender.text_of() + "]"@,
{
}

impl<P: Clone> Message<P> {
    /// `other` has the routing parts of this message and a clone of its
    /// payload.
    pub open spec fn copied_to(self, other: Message<P>) -> bool {
        &&& other@.fid == self@.fid
        &&& other@.to == self@.to
        &&& other@.sid == self@.sid
        &&& other@.sender == self@.sender
        &&& cloned::<P>(self@.payload, other@.payload)
    }

    /// A clone of a message, or the message itself, is a copy of it.
    pub proof fn lemma_cloned_copies(self, other: Message<P>)
        requires
            cloned::<Message<P>>(self, other),
        ensures
            self.copied_to(other),
    {
    }
}

impl<P: Clone> Clone for Message<P> {
    /// A copy with the same routing parts and a clone of the payload.
    fn clone(&self) -> (r: Message<P>)
        ensures
            r@.fid == self@.fid,
            r@.to == self@.to,
            r@.sid == self@.sid,
            r@.sender == self@.sender,
            cloned::<P>(self@.payload, r@.payload),
    {
        proof {
            self.lemma_view_parts();
        }
        let r = Message {
            fid: self.fid,
            to: self.to.clone(),
            sid: self.sid,
            sender: self.sender,
            payload: self.payload.clone(),
        };
        proof {
            r.lemma_view_parts();
        }
        r
    }
}

} // verus!
