//! Core of a resilient SSH reverse-tunnel daemon.
//!
//! The library holds the verified logic of the daemon: the connection
//! lifecycle state machine (`controller`), the endpoint formatting and the
//! configuration record (`config`), the bookkeeping of forwarded
//! connections (`relay`), and the read-only record the status surface
//! renders (`status`). All network I/O — the SSH transport, the tunnel
//! channels, the status HTTP surface — lives outside the library and feeds
//! its observations in as plain values.

pub mod config;
pub mod controller;
pub mod relay;
pub mod status;
