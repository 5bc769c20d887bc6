//! The bookkeeping of the proxies through which a node reaches its
//! neighbours, and the choice of the neighbours a message goes to.

pub mod metrics;
pub mod mid;

pub use metrics::{Metrics, MetricsView};
pub use mid::MessageId;
pub mod link;

pub use link::{Proxy, ProxyView};
pub mod proxies;

pub use proxies::{CfgMessage, Proxies};
pub mod builder;

pub use builder::Builder;
