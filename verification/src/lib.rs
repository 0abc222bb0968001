//! A versioned specification service: YAML documents kept as an append-only
//! event log, with read models derived from that log.
//!
//! The library holds the rules of the service: how a command on a specification
//! becomes events, how the log numbers what is appended to it, how the read
//! models follow the log, and what the REST and the RPC surface answer. Its log
//! and its read models live in memory. A host that keeps them in a database reads
//! and writes the rows itself, and leaves to the library what the rows mean and
//! what is decided on them.

pub mod api;
pub mod domain;
pub mod infrastructure;
