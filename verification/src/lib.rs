//! Verified core of a minimal HTTP key-value service.
//!
//! The library holds the two components with real invariants: the in-memory
//! key-value store behind the `KVDatabase` capability set, and the admission
//! control pipeline (concurrency gate, deadline check, error classification)
//! that shields the store from overload. The HTTP server, configuration
//! loading and log subscriber setup around it are ordinary plumbing and live
//! outside the library.

pub mod configuration;
pub mod db;
pub mod dependency;
pub mod error;
pub mod handler;
pub mod middleware;
