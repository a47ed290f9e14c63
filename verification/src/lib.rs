//! Request-handling layer of a content-addressable storage (CAS) service.
//!
//! The adapter translates batched, digest-identified requests into individual
//! calls against an abstract blob store: existence checks are collected into
//! the subset of digests the store does not hold, and uploads are validated
//! and written with per-item partial-failure semantics, so one malformed item
//! never fails the rest of its batch. Store failures are mapped onto the
//! protocol's status-code space by a total translation function.

pub mod cas_server;
pub mod laws;
pub mod messages;
pub mod numfmt;
pub mod status;
pub mod store;
