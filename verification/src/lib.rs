//! Client-side core of a real-time chat platform's network protocol.
//!
//! The crate covers the gateway protocol state machine (handshake,
//! heartbeat liveness, resume/reconnect, close-code interpretation),
//! the rate-limited request layer, and the entity cache, together with
//! the identifier and capability-mask leaves they are built on.
//! Network transport itself (HTTP, websocket) is left to the embedding
//! program; every decision the protocol takes is made here, on plain
//! values, under a contract.

pub mod client;
pub mod digits;
pub mod errors;
pub mod gateway;
pub mod heartbeat;
pub mod http;
pub mod intents;
pub mod json;
pub mod wire;
pub mod object;
pub mod snowflake;
pub mod state;
