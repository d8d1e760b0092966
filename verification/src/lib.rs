//! Memoised execution of untrusted code snippets in a sandbox.
//!
//! The crate holds the decisions of a "run this code" service: a bounded
//! table that remembers successful runs by `(command, input)`, the rules for
//! what may be remembered, and the life cycle of one sandboxed run. Starting
//! processes and waiting for them is left to the caller, which hands the
//! outcome of each step back as a plain value.

pub mod cache;
pub mod header;
pub mod lru;
pub mod request;
pub mod response;
pub mod sandbox;
pub mod status;
