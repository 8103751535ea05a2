//! A mock HTTP server engine: named collections of declarative routes, each
//! bound to a TCP port, answered by an independently start/stoppable listener.
//!
//! The crate holds the engine's logic — route matching, response synthesis,
//! the listener lifecycle, and the port registry — as verified functions over
//! plain data. Binding sockets, serving connections, sleeping for configured
//! delays and persisting records are left to the host program, which feeds
//! this library plain values and carries out the plans it returns.

pub mod admin;
pub mod listener;
pub mod matcher;
pub mod models;
pub mod numerals;
pub mod registry;
pub mod synthesizer;
