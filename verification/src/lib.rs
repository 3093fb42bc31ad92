//! Storage-matching protocol for a decentralized storage network.
//!
//! Users announce files that need replication; backup storage providers
//! (BSPs) discover the announcements and volunteer through a
//! randomness-weighted admission rule; once admitted, a provider fetches the
//! file content directly from the requester over a peer-to-peer transport.
//!
//! The crate holds the protocol's verified core: the request/volunteer
//! ledger and its admission rule, the provider registry it consults, the
//! bookkeeping of the peer-to-peer coordinator, the decisions of the
//! chain-event bridge, and the retry scheduler's backoff policy.

pub mod bridge;
pub mod coordinator;
pub mod hashing;
pub mod ledger;
pub mod multiaddr;
pub mod oracle;
pub mod registry;
pub mod scheduler;
pub mod support;
pub mod types;

pub use oracle::calculate_xor;
pub use support::{Role, LightClientOptions, SupportedRuntime};
