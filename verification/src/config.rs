//! Named configuration constants of the proxy engine.

use vstd::prelude::*;

verus! {

/// TCP port the proxy listens on, on the loopback interface.
pub const PROXY_PORT: u16 = 3000;

/// Size in bytes of the buffer that receives a client's opening request.
pub const REQUEST_BUFFER_BYTES: usize = 4096;

/// Size in bytes of each directional tunnel copy buffer.
pub const TUNNEL_BUFFER_BYTES: usize = 8192;

/// Seconds allowed for the client's opening read before the connection
/// is closed silently.
pub const CLIENT_READ_TIMEOUT_SECS: u64 = 10;

/// Seconds allowed for the upstream TCP connect before the gateway
/// timeout response is sent.
pub const UPSTREAM_CONNECT_TIMEOUT_SECS: u64 = 10;

/// Seconds a tunnel direction may stay idle before the whole tunnel ends.
pub const TUNNEL_IDLE_TIMEOUT_SECS: u64 = 30;

/// Seconds between two fetches of the blocklist source.
pub const BLOCKLIST_REFRESH_SECS: u64 = 30;

/// Seconds between two health self-probes of the listening endpoint.
pub const HEALTH_CHECK_INTERVAL_SECS: u64 = 30;

/// Milliseconds to back off after a failed accept, so an error does not
/// turn into a tight loop.
pub const ACCEPT_ERROR_BACKOFF_MILLIS: u64 = 100;

/// Seconds to wait for a stopped instance to finish before its handle is
/// discarded anyway.
pub const SHUTDOWN_WAIT_SECS: u64 = 5;

/// Milliseconds to wait after spawning an instance so the listener is
/// bound before the system-proxy collaborator is invoked.
pub const LISTENER_WARMUP_MILLIS: u64 = 500;

/// Number of pending notifications the shutdown broadcast buffers.
pub const SHUTDOWN_CHANNEL_CAPACITY: usize = 1;

} // verus!
