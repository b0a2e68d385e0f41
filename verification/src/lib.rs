//! A signaling coordinator for peer-to-peer connection negotiation.
//!
//! The coordinator owns all live per-session connection state: a map from
//! session identifier to peer-session lifecycle state, and a map from session
//! identifier to the buffer of locally discovered network candidates awaiting
//! delivery to the remote peer. All mutation goes through the coordinator's
//! methods, one message at a time; the surrounding process feeds it messages
//! from HTTP handlers and from the peer-connection engine's callbacks.

pub mod candidate;
pub mod coordinator;
pub mod endpoint;
pub mod errors;
pub mod laws;
pub mod lifecycle;
pub mod model;
mod table;
