//! A reachability probe protocol: a peer sends a fixed-length request naming
//! the TCP and UDP ports it believes are open, the server probes them at the
//! address the connection came from, and answers with that address.
//!
//! `message` holds the port-list record, `wire` the byte layout of requests
//! and replies, `connection` the per-connection decisions as a state
//! machine that the surrounding I/O code drives, and `run` what holds of
//! whole runs of that machine.

pub mod connection;
pub mod message;
pub mod run;
pub mod wire;
