//! A small concurrent echo service: the per-connection protocol, core-count
//! detection and log-entry formatting, each with a verified contract.
use vstd::prelude::*;

pub mod cores;
pub mod handler;
pub mod log;

verus! {

/// Address the service listens on.
pub const IP_ADDRESS: &'static str = "127.0.0.1";

/// Port the service listens on.
pub const PORT: u16 = 8081;

/// Size of the buffer a connection is read into; one echo cycle carries at most this many bytes.
pub const BUF_SIZE: usize = 1024;

/// Pool size used when the core count cannot be detected.
pub const DEFAULT_WORKER_NUM: usize = 1;

} // verus!
