//! Builders that turn a declarative logger configuration into a running
//! log sink.
//!
//! The crate models the configuration-to-sink pipeline: an ordered severity
//! level with a threshold filter, record-format and time-zone selectors,
//! per-destination builders with fluent setters, the tagged-union dispatch
//! from a configuration value to its builder, and the self-healing state
//! machine of the file destination writer.

pub mod config;
pub mod error;
pub mod file;
pub mod null;
pub mod terminal;
pub mod types;
