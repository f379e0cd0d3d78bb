//! Terminal logger: a builder for loggers that write records to the
//! standard output or standard error stream of the process.

use vstd::prelude::*;

use crate::error::Error;
use crate::types::{Format, Severity, TimeZone};

verus! {

/// The stream to which a terminal logger writes its records.
#[derive(Debug, Clone, Copy, PartialEq, Eq, Structural)]
pub enum Destination {
    /// Standard output.
    Stdout,
    /// Standard error.
    Stderr,
}

impl Default for Destination {
    /// The default destination is standard error.
    fn default() -> (r: Self)
        ensures
            r == Destination::Stderr,
    {
        Destination::Stderr
    }
}

/// A logger builder which builds loggers that write log records to the
/// terminal.
#[derive(Debug, Clone, Copy, PartialEq, Eq, Structural)]
pub struct TerminalLoggerBuilder {
    /// Log record format.
    pub format: Format,
    /// Time zone of rendered timestamps.
    pub timezone: TimeZone,
    /// Minimum severity a record needs to be kept.
    pub level: Severity,
    /// The stream written to.
    pub destination: Destination,
}

impl TerminalLoggerBuilder {
    /// Makes a new `TerminalLoggerBuilder` with every tunable at its
    /// default: full format, local time zone, minimum level `Info`,
    /// standard error.
    pub fn new() -> (r: Self)
        ensures
            r.format == Format::Full,
            r.timezone == TimeZone::Local,
            r.level == Severity::Info,
            r.destination == Destination::Stderr,
    {
        TerminalLoggerBuilder {
            format: Format::default(),
            timezone: TimeZone::default(),
            level: Severity::default(),
            destination: Destination::default(),
        }
    }

    /// Sets the format of log records.
    pub fn format(&mut self, format: Format)
        ensures
            *final(self) == (TerminalLoggerBuilder { format, ..*old(self) }),
    {
        self.format = format;
    }

    /// Sets the time zone which this logger will use.
    pub fn timezone(&mut self, timezone: TimeZone)
        ensures
            *final(self) == (TerminalLoggerBuilder { timezone, ..*old(self) }),
    {
        self.timezone = timezone;
    }

    /// Sets the log level of this logger.
    pub fn level(&mut self, severity: Severity)
        ensures
            *final(self) == (TerminalLoggerBuilder { level: severity, ..*old(self) }),
    {
        self.level = severity;
    }

    /// Sets the stream to which the log records will be written.
    pub fn destination(&mut self, destination: Destination)
        ensures
            *final(self) == (TerminalLoggerBuilder { destination, ..*old(self) }),
    {
        self.destination = destination;
    }
}

/// The configuration of `TerminalLoggerBuilder`.
#[derive(Debug, Clone, Copy, PartialEq, Eq, Structural, Default)]
pub struct TerminalLoggerConfig {
    /// Log level.
    pub level: Severity,

    /// Log record format.
    pub format: Format,

    /// Time zone.
    pub timezone: TimeZone,

    /// Output destination.
    pub destination: Destination,
}

impl TerminalLoggerConfig {
    /// Makes a logger builder associated with this configuration: every
    /// field is carried over unchanged. The terminal destination needs no
    /// preparation, so this never fails.
    pub fn try_to_builder(&self) -> (r: Result<TerminalLoggerBuilder, Error>)
        ensures
            r == Ok::<TerminalLoggerBuilder, Error>(TerminalLoggerBuilder {
                format: self.format,
                timezone: self.timezone,
                level: self.level,
                destination: self.destination,
            }),
    {
        let mut builder = TerminalLoggerBuilder::new();
        builder.level(self.level);
        builder.format(self.format);
        builder.timezone(self.timezone);
        builder.destination(self.destination);
        Ok(builder)
    }
}

} // verus!
