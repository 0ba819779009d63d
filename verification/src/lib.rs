//! Node discovery core of a peer-to-peer overlay.
//!
//! Given a node identifier, discovery obtains the address information (a relay URL
//! and direct transport addresses) that a transport needs to dial the node. The
//! crate holds the data model, the provider capability and its concurrent
//! aggregator, the rule that decides whether a lookup is warranted, and the
//! state machine of a discovery task. Every function carries a contract, and
//! Verus proves that the function meets it, with two exceptions: the short and
//! the full printed form of a node identifier are computed by `iroh_base`, and
//! the contracts of the two functions that make these calls are believed, not
//! proved. The text of an error message that names a node rests on them.

pub mod addr;
pub mod error;
pub mod lifecycle;
pub mod liveness;
pub mod merge;
pub mod provider;
pub mod task;

pub use addr::{AddrInfo, AddrInfoView, DirectAddr, NodeAddr, NodeId};
pub use error::DiscoveryError;
pub use liveness::{needs_discovery, ConnectionInfo, Interval};
pub use merge::{Arrival, MergedStream, SubstreamEvent};
pub use provider::{ConcurrentDiscovery, Discovery, DiscoveryItem, DiscoveryItemView, PublishLog};
pub use task::{DiscoveryTask, Phase, StreamEvent, TaskAction};
