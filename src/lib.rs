//! Presence aggregation for a fixed directory of users.
//!
//! Each external source keeps a snapshot cache keyed by that source's own
//! identifier; the aggregation reads one snapshot from each cache, redacts the
//! location according to the caller's scopes, and composes a per-user view.
//! Host names can be routed to the user that owns them.
//!
//! The caches are plain values: each is replaced one whole snapshot at a time,
//! and a program that shares them across tasks holds each behind its own
//! reader-writer lock, so that a reader sees a snapshot before or after a
//! write, never part of one.
pub mod config;
pub mod fetchers;
pub mod host_config;
pub mod host_rerouter;
pub mod routes;
pub mod keyed;
pub mod text;
