//! Connection options of the streaming client.

use vstd::prelude::*;

verus! {

/// Connection strategy for the WebSocket client.
///
/// Controls how the client handles initial connection and reconnection
/// attempts.
#[derive(Debug, Clone, Copy, PartialEq, Eq, Structural)]
pub enum ConnectStrategy {
    /// Single connection attempt. Fast-fail on error.
    ///
    /// Recommended for testing or when you want explicit control over
    /// retries.
    Simple,
    /// Retry with exponential backoff, capped at 60 seconds.
    ///
    /// Recommended for production use. Will retry indefinitely until
    /// connected.
    Retry,
}

impl Default for ConnectStrategy {
    /// A single connection attempt.
    fn default() -> (s: Self)
        ensures
            s == ConnectStrategy::Simple,
    {
        ConnectStrategy::Simple
    }
}

/// Configuration of connection health monitoring, in milliseconds.
///
/// Kalshi sends Ping frames with body "heartbeat", but only on idle
/// connections: while messages flow it may stop. So the client sends its
/// own pings (every `ping_interval_ms`, expecting a pong within
/// `ping_timeout_ms` of the last one), and takes a connection with no
/// message sent or received for `server_ping_timeout_ms` for dead.
#[derive(Debug, Clone, Copy, PartialEq, Eq, Structural)]
pub struct HealthConfig {
    /// Interval between client-initiated ping frames.
    pub ping_interval_ms: u64,
    /// Timeout for the pong answering a client-initiated ping.
    pub ping_timeout_ms: u64,
    /// Timeout for any activity (messages sent or received).
    pub server_ping_timeout_ms: u64,
}

impl Default for HealthConfig {
    /// Pings every 30 s, a pong within 10 s, activity within 30 s.
    fn default() -> (c: Self)
        ensures
            c.ping_interval_ms == 30000,
            c.ping_timeout_ms == 10000,
            c.server_ping_timeout_ms == 30000,
    {
        HealthConfig { ping_interval_ms: 30000, ping_timeout_ms: 10000, server_ping_timeout_ms: 30000 }
    }
}

} // verus!
