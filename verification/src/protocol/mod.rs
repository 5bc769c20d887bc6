//! Protocol messages: their routing identifiers, the message itself and
//! the builder that assembles it.

pub mod builder;
pub mod from;
pub mod hid;
pub mod message;
pub mod sender;
pub mod session;
pub mod states;
pub mod to;

pub use builder::{BuildState, Builder, BuilderView};
pub use from::FromId;
pub use hid::HopId;
pub use message::{Message, MessageView};
pub use sender::SenderId;
pub use session::{Session, SessionId};
pub use to::{To, ToView};
