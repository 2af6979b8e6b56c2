//! Validation and encoding of an operator log: the append-only, signed chain
//! of records that says which keys may act for a registry.
//!
//! The records are written, read, hashed, and judged against the log by the
//! warg crates. This crate puts a plain data model in front of them and
//! proves what it adds: the order of the checks, the error that each failure
//! gives, and that a refused record leaves the log as it was.

pub mod codec;
pub mod errors;
pub mod laws;
pub mod log;
pub mod model;
pub mod warg;
