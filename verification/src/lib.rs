//! Verified core of an HTTP bridge to an iSCSI management service that is
//! reachable only over an IPC message bus.
//!
//! The library holds the logic of that bridge: the domain data model, the
//! translation of raw property-change notifications into typed events, the
//! fan-in aggregation of several event sources into one stream, the
//! interpretation of bus replies as typed domain results, and the mapping of
//! each domain result onto an HTTP status and body.  The transports on either
//! side — the bus connection itself and the HTTP server — are left to the
//! surrounding binary, which hands plain values in and takes plain values out.

pub mod aggregator;
pub mod client;
pub mod event;
pub mod proxy;
pub mod types;
