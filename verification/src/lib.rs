//! Core protocol library for a signed, room-based messaging system.
//!
//! Clients authenticate every method call with an ECDSA signature over a
//! canonical JSON encoding and a monotonic nonce; the server validates
//! signatures, timestamps and nonce freshness before dispatching a call to a
//! room; pushed data flows back over a multiplexed socket whose events are
//! fanned out to filtered subscribers.

pub mod b64;
pub mod bus;
pub mod client;
pub mod conn;
pub mod decode;
pub mod digits;
pub mod envelope;
pub mod keys;
pub mod nonce;
pub mod parse;
pub mod peer_api;
pub mod render;
pub mod resolver;
pub mod room_api;
pub mod room_id;
pub mod server;
pub mod text;
pub mod wire;
