//! Verified core of a loopback content-control proxy.
//!
//! The engine decides everything that does not touch a socket: parsing the
//! opening request line, enforcing the blocklist, choosing the exact response
//! line, the bookkeeping of a bidirectional tunnel, and the
//! start/stop/restart lifecycle that keeps at most one listener alive.
//! A thin asynchronous shell performs the reads, writes and connects and
//! feeds their outcomes back into these functions.

pub mod acceptor;
pub mod blocklist;
pub mod bytes;
pub mod config;
pub mod handler;
pub mod lifecycle;
pub mod logger;
pub mod request;
pub mod response;
pub mod system;
pub mod tunnel;
