//! A minimal concurrent HTTP responder, verified with Verus.
//!
//! The library holds the logic of a tiny service that listens on two
//! independently configured TCP ports and serves one fixed plaintext payload
//! per port: the response policy (`policy`), the request-line grammar
//! (`request_line`), the per-connection request/response stepping
//! (`connection`), port-number configuration (`config`), and the listener and
//! supervisor state machines (`listener`, `supervisor`). The surrounding
//! binary does the sockets, threads and environment reads, and hands this
//! library plain values.

pub mod config;
pub mod connection;
pub mod listener;
pub mod policy;
pub mod render;
pub mod request_line;
pub mod supervisor;
