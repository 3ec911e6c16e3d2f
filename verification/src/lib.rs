//! A local registry of RPC handlers through which the primary and the workers
//! of one validator node find and call each other in process.
//!
//! The registry state, the bounded discovery protocol and the lifecycle
//! transitions are verified; the shared handle guards the state with a
//! reader/writer lock.

pub mod client;
pub mod discovery;
pub mod error;
pub mod handler_map;
pub mod peer_id;
pub mod registry;

pub use client::NetworkClient;
pub use discovery::Discovery;
pub use discovery::RetryPolicy;
pub use discovery::Step;
pub use error::LocalClientError;
pub use peer_id::NetworkKeyPair;
pub use peer_id::NetworkPublicKey;
pub use peer_id::PeerId;
pub use registry::Lookup;
pub use registry::Registry;
