//! Null logger: a builder for loggers that discard every record.

use vstd::prelude::*;

use crate::error::Error;

verus! {

/// A logger builder which builds loggers that discard all log records.
#[derive(Debug, Clone, Copy, PartialEq, Eq, Structural)]
pub struct NullLoggerBuilder;

/// The configuration of `NullLoggerBuilder`: the null destination has no
/// tunables.
#[derive(Debug, Clone, Copy, PartialEq, Eq, Structural, Default)]
pub struct NullLoggerConfig {}

impl NullLoggerConfig {
    /// Makes a logger builder associated with this configuration. The
    /// null destination needs no preparation, so this never fails.
    pub fn try_to_builder(&self) -> (r: Result<NullLoggerBuilder, Error>)
        ensures
            r == Ok::<NullLoggerBuilder, Error>(NullLoggerBuilder),
    {
        Ok(NullLoggerBuilder)
    }
}

} // verus!
