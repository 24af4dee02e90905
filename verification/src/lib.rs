//! Protocol-conformance test prover: a client-side replacement for a proving
//! backend that replays fixed fixture artifacts over an aggregator session.
//!
//! The heart of the crate is the session state machine in [`aggregator`]: it
//! consumes orchestrator requests one at a time, tracks the single pending
//! job, and synthesises the response messages. [`fixture`] parses the static
//! artifact bundle those responses are built from, and [`ids`] mints
//! correlation identifiers. [`hashdb_service`] and [`executor_service`]
//! model the two auxiliary services, whose methods — beyond one fixed
//! node-write reply and one lifecycle acknowledgment — fault as
//! unimplemented.

pub mod aggregator;
pub mod executor_service;
pub mod fixture;
pub mod hashdb_service;
pub mod ids;
