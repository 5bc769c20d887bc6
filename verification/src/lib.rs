//! Building blocks for message-passing distributed algorithms: actor
//! identifiers, protocol messages and their builders, the bookkeeping of
//! the proxies that reach a node's neighbours, the routing decisions a node
//! takes, and the outline of trees of keyed items.

pub mod actor;
pub mod handler;
pub mod kantor;
pub mod protocol;
pub mod proxy;
pub mod text;
pub mod tree;

pub use actor::ActorId;
pub use handler::{ContinuationHandler, ProtocolHandler};
pub use text::debug_iter;
