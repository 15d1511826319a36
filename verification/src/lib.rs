//! Verified core of a WebRTC signaling host: a resource registry that tracks
//! media engines, interceptor registries, APIs, peer-connection mailboxes and
//! track handles through an ownership-transfer chain, together with the
//! command/event protocol of the per-connection actor.
//!
//! Everything that can be decided from registry state alone is verified here;
//! the asynchronous engine calls themselves are reached through a small set of
//! trusted wrappers around the `webrtc`, `serde_json` and `uuid` crates.

pub mod actor;
pub mod codec_capability;
pub mod config;
pub mod engine;
pub mod errors;
pub mod lifecycle;
pub mod peer_conn_state;
pub mod peer_connection;
pub mod specter_config;
pub mod state;
pub mod util;
