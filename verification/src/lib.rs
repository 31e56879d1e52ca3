//! Resilience layer for a long-lived streaming transport client.
//!
//! The crate holds the verified core of the client: the connection
//! lifecycle state machine, the exponential-backoff reconnect strategy,
//! the heartbeat keep-alive decision, the outbound rate limiter, frame
//! construction, and the account aggregation model. All I/O (socket
//! setup, timers, the async loops) lives outside the library and drives
//! these state machines with plain values.

pub mod account;
pub mod backoff;
pub mod client;
pub mod config;
pub mod mode;
pub mod ratelimiter;
pub mod types;
