//! Immutable client configuration.
//!
//! Created once by the caller and shared read-only by every component
//! for the client's lifetime.

use vstd::prelude::*;
use crate::backoff::{BACKOFF_PARAM_MAX, FACTOR_UNIT};

verus! {

/// Default overall time budget for a reconnect cycle, in milliseconds.
pub const DEFAULT_RECONNECT_TIMEOUT_MS: u64 = 10_000;

/// Default delay of the first retry, in milliseconds.
pub const DEFAULT_RECONNECT_DELAY_INITIAL_MS: u64 = 2_000;

/// Default cap on the retry delay, in milliseconds.
pub const DEFAULT_RECONNECT_DELAY_MAX_MS: u64 = 30_000;

/// Default backoff multiplier, in thousandths: one and a half.
pub const DEFAULT_RECONNECT_BACKOFF_FACTOR_MILLI: u64 = 1_500;

/// Default upper bound of the random delay addition, in milliseconds.
pub const DEFAULT_RECONNECT_JITTER_MS: u64 = 100;

/// Transport security of the underlying byte stream.
#[derive(Clone, Copy, Debug, PartialEq, Eq, Structural)]
pub enum SecurityMode {
    /// Plain TCP.
    Plain,
    /// TLS over TCP, validating the server certificate.
    Tls,
}

/// Construction-time parameters of a socket client, immutable
/// thereafter.
pub struct SocketConfig {
    /// Endpoint to connect to.
    pub url: String,
    /// Plain or TLS transport.
    pub mode: SecurityMode,
    /// Bytes appended to every outbound payload, e.g. a protocol
    /// terminator.
    pub suffix: Vec<u8>,
    /// Optional keep-alive: interval in seconds, and the payload sent
    /// at each beat.
    pub heartbeat: Option<(u64, Vec<u8>)>,
    /// Overall time budget for a reconnect cycle before the client is
    /// declared dead, in milliseconds.
    pub reconnect_timeout_ms: u64,
    /// Delay of the first retry, in milliseconds.
    pub reconnect_delay_initial_ms: u64,
    /// Cap on the retry delay, in milliseconds.
    pub reconnect_delay_max_ms: u64,
    /// Backoff multiplier per consecutive failure, in thousandths.
    pub reconnect_backoff_factor_milli: u64,
    /// Upper bound of the random delay addition, in milliseconds.
    pub reconnect_jitter_ms: u64,
    /// Optional directory of trusted certificate material overriding
    /// the system roots.
    pub certs_dir: Option<String>,
}

impl SocketConfig {
    /// Well-formedness: the backoff parameters fit the arithmetic, the
    /// multiplier is at least one, and the delay floor does not exceed
    /// the cap.
    pub open spec fn wf(self) -> bool {
        &&& FACTOR_UNIT <= self.reconnect_backoff_factor_milli <= BACKOFF_PARAM_MAX
        &&& self.reconnect_delay_initial_ms <= self.reconnect_delay_max_ms
        &&& self.reconnect_delay_max_ms <= BACKOFF_PARAM_MAX
        &&& self.reconnect_jitter_ms <= BACKOFF_PARAM_MAX
        &&& self.reconnect_timeout_ms <= BACKOFF_PARAM_MAX
    }

    /// Build a configuration, filling every omitted reconnect parameter
    /// with its default. A secure transport is selected with `ssl`.
    pub fn new(
        url: String,
        ssl: bool,
        suffix: Vec<u8>,
        heartbeat: Option<(u64, Vec<u8>)>,
        reconnect_timeout_ms: Option<u64>,
        reconnect_delay_initial_ms: Option<u64>,
        reconnect_delay_max_ms: Option<u64>,
        reconnect_backoff_factor_milli: Option<u64>,
        reconnect_jitter_ms: Option<u64>,
        certs_dir: Option<String>,
    ) -> (r: Self)
        ensures
            r.url == url,
            r.mode == (if ssl {
                SecurityMode::Tls
            } else {
                SecurityMode::Plain
            }),
            r.suffix == suffix,
            r.heartbeat == heartbeat,
            r.reconnect_timeout_ms == reconnect_timeout_ms.unwrap_or(
                DEFAULT_RECONNECT_TIMEOUT_MS,
            ),
            r.reconnect_delay_initial_ms == reconnect_delay_initial_ms.unwrap_or(
                DEFAULT_RECONNECT_DELAY_INITIAL_MS,
            ),
            r.reconnect_delay_max_ms == reconnect_delay_max_ms.unwrap_or(
                DEFAULT_RECONNECT_DELAY_MAX_MS,
            ),
            r.reconnect_backoff_factor_milli == reconnect_backoff_factor_milli.unwrap_or(
                DEFAULT_RECONNECT_BACKOFF_FACTOR_MILLI,
            ),
            r.reconnect_jitter_ms == reconnect_jitter_ms.unwrap_or(DEFAULT_RECONNECT_JITTER_MS),
            r.certs_dir == certs_dir,
    {
        let mode = if ssl {
            SecurityMode::Tls
        } else {
            SecurityMode::Plain
        };
        SocketConfig {
            url,
            mode,
            suffix,
            heartbeat,
            reconnect_timeout_ms: reconnect_timeout_ms.unwrap_or(DEFAULT_RECONNECT_TIMEOUT_MS),
            reconnect_delay_initial_ms: reconnect_delay_initial_ms.unwrap_or(
                DEFAULT_RECONNECT_DELAY_INITIAL_MS,
            ),
            reconnect_delay_max_ms: reconnect_delay_max_ms.unwrap_or(
                DEFAULT_RECONNECT_DELAY_MAX_MS,
            ),
            reconnect_backoff_factor_milli: reconnect_backoff_factor_milli.unwrap_or(
                DEFAULT_RECONNECT_BACKOFF_FACTOR_MILLI,
            ),
            reconnect_jitter_ms: reconnect_jitter_ms.unwrap_or(DEFAULT_RECONNECT_JITTER_MS),
            certs_dir,
        }
    }
}

} // verus!
