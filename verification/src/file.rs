//! File logger: the builder for file-backed sinks and the self-healing
//! destination writer bound to a filesystem path.
//!
//! The destination writer is modelled as an explicit state machine over
//! `{path, handle held?}`. The I/O itself (probing the path, opening,
//! writing, flushing) is performed by an unverified driver that consults
//! the decision functions here before every step; the contracts pin down
//! exactly when a handle must be (re)opened, when a write may go through,
//! and when a flush is a no-op.

use vstd::prelude::*;

use crate::error::{Error, ErrorKind};
use crate::types::{Format, Severity, TimeZone};

verus! {

/// The default capacity of the asynchronous delivery channel.
pub fn default_channel_size() -> (r: usize)
    ensures
        r == 1024,
{
    1024
}

/// What a flush of the destination writer must do.
#[derive(Debug, Clone, Copy, PartialEq, Eq, Structural)]
pub enum FlushPlan {
    /// A handle is held: flush it, surfacing any I/O error.
    FlushHeld,
    /// No handle is held: succeed without touching anything.
    NoopOk,
}

/// The write target of a file logger: a filesystem path, owned for the
/// writer's lifetime, and at most one open handle to it.
///
/// A held handle is trusted only while the path still resolves to an
/// existing filesystem entry: before every write the driver asks
/// [`FileAppender::needs_reopen`] and, when it answers `true`, opens the
/// path anew (create-if-absent, append, write) and reports the outcome
/// back. The writer therefore survives external deletion or rotation of
/// its target: the next write transparently recreates the file.
#[derive(Debug)]
pub struct FileAppender {
    path: String,
    opened: bool,
}

/// Whether the writer must (re)open its path before the next write:
/// exactly when the path no longer exists or no handle is held.
pub open spec fn reopen_needed(a: FileAppender, path_exists: bool) -> bool {
    !path_exists || !a.is_open()
}

/// What a flush of writer `a` must do: flush the held handle if there is
/// one, otherwise succeed as a no-op.
pub open spec fn flush_plan_of(a: FileAppender) -> FlushPlan {
    if a.is_open() {
        FlushPlan::FlushHeld
    } else {
        FlushPlan::NoopOk
    }
}

impl FileAppender {
    /// The path this writer appends to.
    pub closed spec fn spec_path(&self) -> Seq<char> {
        self.path@
    }

    /// Whether the writer currently holds an open handle.
    pub closed spec fn is_open(&self) -> bool {
        self.opened
    }

    /// Makes a new `FileAppender` which appends to `path`. No handle is
    /// opened until the first write asks for one.
    pub fn new(path: String) -> (r: Self)
        ensures
            r.spec_path() == path@,
            !r.is_open(),
    {
        FileAppender { path, opened: false }
    }

    /// The path this writer appends to.
    pub fn path(&self) -> (r: &String)
        ensures
            r@ == self.spec_path(),
    {
        &self.path
    }

    /// A duplicate of this writer for the same path. A duplicate never
    /// inherits the open handle: it starts with none and independently
    /// reopens on its first write, so two writers never share one OS-level
    /// descriptor's buffering state.
    pub fn duplicate(&self) -> (r: Self)
        ensures
            r.spec_path() == self.spec_path(),
            !r.is_open(),
    {
        FileAppender { path: self.path.clone(), opened: false }
    }

    /// Whether the driver must (re)open the path before writing, given
    /// whether the path currently exists on the filesystem.
    pub fn needs_reopen(&self, path_exists: bool) -> (r: bool)
        ensures
            r == reopen_needed(*self, path_exists),
    {
        !path_exists || !self.opened
    }

    /// Records that the driver opened the path and now holds a fresh
    /// handle, replacing any stale one. On a failed open the driver calls
    /// nothing and surfaces the I/O error: the state is unchanged.
    pub fn handle_opened(&mut self)
        ensures
            final(self).spec_path() == old(self).spec_path(),
            final(self).is_open(),
    {
        self.opened = true;
    }

    /// Whether a write may go through the held handle. After a reopen
    /// round that reported success this is always `true`; when it is
    /// `false` the driver must fail the write rather than invent a handle.
    pub fn can_write(&self) -> (r: bool)
        ensures
            r == self.is_open(),
    {
        self.opened
    }

    /// What a flush must do now: flush the held handle, or succeed as a
    /// no-op when none is held. A flush on a writer that has never
    /// written is not an error.
    pub fn flush_plan(&self) -> (r: FlushPlan)
        ensures
            r == flush_plan_of(*self),
    {
        if self.opened {
            FlushPlan::FlushHeld
        } else {
            FlushPlan::NoopOk
        }
    }
}

/// Once the path has been deleted (or renamed away) out from under the
/// writer, the next write must reopen it, whatever handle is still held:
/// the write after an external deletion recreates a fresh file at the
/// same path instead of failing.
pub proof fn lemma_deleted_path_forces_reopen(a: FileAppender)
    ensures
        reopen_needed(a, false),
{
}

/// A writer that holds no handle — a fresh one, or a duplicate that has
/// never written — must open its own handle on its first write, whether
/// or not the path already exists: duplicates never borrow the original's
/// handle.
pub proof fn lemma_handleless_writer_opens_fresh(a: FileAppender, path_exists: bool)
    requires
        !a.is_open(),
    ensures
        reopen_needed(a, path_exists),
{
}

/// Flushing a writer that holds no handle is a successful no-op, never an
/// error.
pub proof fn lemma_fresh_flush_is_noop(a: FileAppender)
    requires
        !a.is_open(),
    ensures
        flush_plan_of(a) == FlushPlan::NoopOk,
{
}

/// A logger builder which builds loggers that write log records to the
/// specified file.
///
/// The resulting logger works asynchronously (the default channel size is
/// 1024).
#[derive(Debug)]
pub struct FileLoggerBuilder {
    /// Log record format.
    pub format: Format,
    /// Time zone of rendered timestamps.
    pub timezone: TimeZone,
    /// Minimum severity a record needs to be kept.
    pub level: Severity,
    /// The destination writer bound to the output path.
    pub appender: FileAppender,
    /// Capacity of the asynchronous delivery channel.
    pub channel_size: usize,
}

impl FileLoggerBuilder {
    /// Makes a new `FileLoggerBuilder` for a logger that uses `path` as
    /// the output destination of its records, with every tunable at its
    /// default: full format, local time zone, minimum level `Info`,
    /// channel capacity 1024.
    pub fn new(path: String) -> (r: Self)
        ensures
            r.format == Format::Full,
            r.timezone == TimeZone::Local,
            r.level == Severity::Info,
            r.appender.spec_path() == path@,
            !r.appender.is_open(),
            r.channel_size == 1024,
    {
        FileLoggerBuilder {
            format: Format::default(),
            timezone: TimeZone::default(),
            level: Severity::default(),
            appender: FileAppender::new(path),
            channel_size: default_channel_size(),
        }
    }

    /// Sets the format of log records.
    pub fn format(&mut self, format: Format)
        ensures
            final(self).format == format,
            final(self).timezone == old(self).timezone,
            final(self).level == old(self).level,
            final(self).appender == old(self).appender,
            final(self).channel_size == old(self).channel_size,
    {
        self.format = format;
    }

    /// Sets the time zone which this logger will use.
    pub fn timezone(&mut self, timezone: TimeZone)
        ensures
            final(self).timezone == timezone,
            final(self).format == old(self).format,
            final(self).level == old(self).level,
            final(self).appender == old(self).appender,
            final(self).channel_size == old(self).channel_size,
    {
        self.timezone = timezone;
    }

    /// Sets the log level of this logger.
    pub fn level(&mut self, severity: Severity)
        ensures
            final(self).level == severity,
            final(self).format == old(self).format,
            final(self).timezone == old(self).timezone,
            final(self).appender == old(self).appender,
            final(self).channel_size == old(self).channel_size,
    {
        self.level = severity;
    }

    /// Sets the size of the asynchronous channel of this logger.
    pub fn channel_size(&mut self, channel_size: usize)
        ensures
            final(self).channel_size == channel_size,
            final(self).format == old(self).format,
            final(self).timezone == old(self).timezone,
            final(self).level == old(self).level,
            final(self).appender == old(self).appender,
    {
        self.channel_size = channel_size;
    }
}

/// Whether builder `b` is the one that configuration `c` asks for: every
/// tunable carried over unchanged, and a destination writer bound to
/// `c.path` that has not opened a handle yet.
pub open spec fn file_builder_matches(b: FileLoggerBuilder, c: FileLoggerConfig) -> bool {
    &&& b.format == c.format
    &&& b.timezone == c.timezone
    &&& b.level == c.level
    &&& b.channel_size == c.channel_size
    &&& b.appender.spec_path() == c.path@
    &&& !b.appender.is_open()
}

/// The configuration of `FileLoggerBuilder`.
#[derive(Debug, Clone, PartialEq)]
pub struct FileLoggerConfig {
    /// Log level.
    pub level: Severity,

    /// Log record format.
    pub format: Format,

    /// Time zone.
    pub timezone: TimeZone,

    /// Log file path. Required, and must not be empty.
    pub path: String,

    /// Asynchronous channel size.
    pub channel_size: usize,
}

impl FileLoggerConfig {
    /// Makes a logger builder associated with this configuration: every
    /// tunable is carried over unchanged onto a builder whose destination
    /// writer is bound to `path`.
    ///
    /// An empty path cannot name a file, so it is rejected here as an
    /// `Invalid` configuration rather than deferred to write time.
    pub fn try_to_builder(&self) -> (r: Result<FileLoggerBuilder, Error>)
        ensures
            r is Err <==> self.path@.len() == 0,
            r is Err ==> r->Err_0.spec_kind() == ErrorKind::Invalid,
            r is Ok ==> file_builder_matches(r->Ok_0, *self),
    {
        if self.path.as_str().is_empty() {
            Err(Error::invalid("the path of a file logger must not be empty".to_owned()))
        } else {
            let mut builder = FileLoggerBuilder::new(self.path.clone());
            builder.level(self.level);
            builder.format(self.format);
            builder.timezone(self.timezone);
            builder.channel_size(self.channel_size);
            Ok(builder)
        }
    }
}

} // verus!
