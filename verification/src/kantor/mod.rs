//! The message layer of the `kantor` node runtime: routing identifiers
//! without sessions or senders, plain messages with their builder, and
//! protocol messages with their builder.

pub mod message;
pub mod protocol;
pub mod routing;
pub mod states;

pub use routing::{FromId, HopId, ToId, ToIdView};
