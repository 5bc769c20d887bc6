//! What a node does with a received protocol message.
use crate::actor::ActorId;
use crate::protocol::Message;
use vstd::prelude::*;

verus! {

/// What a node does after handling a message.
pub enum ContinuationHandler<P> {
    /// Send a message to one neighbour.
    SendToNode(ActorId, Message<P>),
    /// Send a message to every neighbour.
    SendToAllNodes(Message<P>),
    /// Send a message to every neighbour but the listed ones.
    SendToAllNodesExcept(Message<P>, Vec<ActorId>),
    /// Nothing more to do.
    Done,
}

impl<P> ContinuationHandler<P> {
    /// The message the continuation sends, if any.
    pub open spec fn carried(self) -> Option<Message<P>> {
        match self {
            ContinuationHandler::SendToNode(_, msg) => Some(msg),
            ContinuationHandler::SendToAllNodes(msg) => Some(msg),
            ContinuationHandler::SendToAllNodesExcept(msg, _) => Some(msg),
            ContinuationHandler::Done => None,
        }
    }
}

/// The behaviour of a node: the algorithm it runs, which users implement.
pub trait ProtocolHandler {
    /// The payload of the protocol messages.
    type Payload: Send;

    /// The identifier of the node.
    fn aid(&self) -> ActorId;

    /// Handles a received message, given the identifiers of the neighbours.
    fn receive(
        &mut self,
        neighbours: &[ActorId],
        msg: Message<Self::Payload>,
    ) -> ContinuationHandler<Self::Payload>;
}

} // verus!
