//! Configuration of the logger builders: one closed, externally tagged
//! union over the destination kinds, the dispatch from a configuration
//! value to its builder, and the codec between a configuration value and
//! the externally tagged document it is stored as.

use vstd::prelude::*;

use crate::error::{Error, ErrorKind};
use crate::file::{file_builder_matches, FileLoggerBuilder, FileLoggerConfig};
use crate::null::{NullLoggerBuilder, NullLoggerConfig};
use crate::terminal::{Destination, TerminalLoggerBuilder, TerminalLoggerConfig};
use crate::types::{Format, Severity, TimeZone};

verus! {

/// The closed union of the logger builders, one variant per destination
/// kind, so that callers can treat every kind uniformly downstream of
/// dispatch.
#[derive(Debug)]
pub enum LoggerBuilder {
    File(FileLoggerBuilder),
    Null(NullLoggerBuilder),
    Terminal(TerminalLoggerBuilder),
}

/// The configuration of a logger: a closed, externally tagged union over
/// the destination kinds, each variant carrying the payload of its kind.
#[derive(Debug, Clone, PartialEq)]
pub enum LoggerConfig {
    File(FileLoggerConfig),
    Null(NullLoggerConfig),
    Terminal(TerminalLoggerConfig),
}

impl LoggerConfig {
    /// Makes the logger builder associated with this configuration:
    /// dispatch on the tag, delegating to the variant's own conversion
    /// and wrapping its builder into the closed builder union.
    ///
    /// The only conversion that can fail is the file variant's, on an
    /// empty path; the error is passed through unchanged as `Invalid`.
    pub fn try_to_builder(&self) -> (r: Result<LoggerBuilder, Error>)
        ensures
            r is Err <==> (self matches LoggerConfig::File(c) && c.path@.len() == 0),
            r is Err ==> r->Err_0.spec_kind() == ErrorKind::Invalid,
            self matches LoggerConfig::File(c) ==> (c.path@.len() != 0 ==> (r matches Ok(
                LoggerBuilder::File(b),
            ) && file_builder_matches(b, *c))),
            self matches LoggerConfig::Null(c) ==> r == Ok::<LoggerBuilder, Error>(
                LoggerBuilder::Null(NullLoggerBuilder),
            ),
            self matches LoggerConfig::Terminal(c) ==> (r matches Ok(
                LoggerBuilder::Terminal(b),
            ) && b == (TerminalLoggerBuilder {
                format: c.format,
                timezone: c.timezone,
                level: c.level,
                destination: c.destination,
            })),
    {
        match self {
            LoggerConfig::File(c) => {
                match c.try_to_builder() {
                    Ok(b) => Ok(LoggerBuilder::File(b)),
                    Err(e) => Err(e),
                }
            },
            LoggerConfig::Null(c) => {
                match c.try_to_builder() {
                    Ok(b) => Ok(LoggerBuilder::Null(b)),
                    Err(e) => Err(e),
                }
            },
            LoggerConfig::Terminal(c) => {
                match c.try_to_builder() {
                    Ok(b) => Ok(LoggerBuilder::Terminal(b)),
                    Err(e) => Err(e),
                }
            },
        }
    }
}

/// The tag of an externally tagged configuration document, selecting the
/// destination kind.
#[derive(Debug, Clone, Copy, PartialEq, Eq, Structural)]
pub enum Tag {
    File,
    Null,
    Terminal,
}

impl Tag {
    /// The value of the `type` key that selects this destination kind.
    pub open spec fn spec_name(self) -> Seq<char> {
        match self {
            Tag::File => "file"@,
            Tag::Null => "null"@,
            Tag::Terminal => "terminal"@,
        }
    }

    /// The destination kind a `type` key selects, if any.
    pub open spec fn spec_from_name(s: Seq<char>) -> Option<Tag> {
        if s == "file"@ {
            Option::Some(Tag::File)
        } else if s == "null"@ {
            Option::Some(Tag::Null)
        } else if s == "terminal"@ {
            Option::Some(Tag::Terminal)
        } else {
            Option::None
        }
    }

    /// The value of the `type` key that selects this destination kind.
    pub fn name(&self) -> (r: &'static str)
        ensures
            r@ == self.spec_name(),
    {
        match self {
            Tag::File => "file",
            Tag::Null => "null",
            Tag::Terminal => "terminal",
        }
    }

    /// Reads a destination kind from the value of a `type` key; an
    /// unknown value is `None`.
    pub fn from_name(s: &str) -> (r: Option<Tag>)
        ensures
            r == Tag::spec_from_name(s@),
    {
        let o = s.to_owned();
        if o == "file".to_owned() {
            Some(Tag::File)
        } else if o == "null".to_owned() {
            Some(Tag::Null)
        } else if o == "terminal".to_owned() {
            Some(Tag::Terminal)
        } else {
            None
        }
    }
}

/// The values of the `type` key are distinct: reading a written tag back
/// yields the destination kind it selected.
pub proof fn lemma_tag_name_round_trip(t: Tag)
    ensures
        Tag::spec_from_name(t.spec_name()) == Some(t),
{
    reveal_strlit("file");
    reveal_strlit("null");
    reveal_strlit("terminal");
    assert("file"@.len() == 4);
    assert("null"@.len() == 4);
    assert("terminal"@.len() == 8);
    assert("file"@[0] != "null"@[0]);
    assert("file"@ != "null"@);
    assert("file"@ != "terminal"@);
    assert("null"@ != "terminal"@);
    match t {
        Tag::File => assert(Tag::spec_from_name("file"@) == Some(Tag::File)),
        Tag::Null => assert(Tag::spec_from_name("null"@) == Some(Tag::Null)),
        Tag::Terminal => assert(Tag::spec_from_name("terminal"@) == Some(Tag::Terminal)),
    }
}

/// An externally tagged configuration document: the tag and, for each
/// key a document may carry, either the value found under it or `None`
/// where the key was omitted.
///
/// This is the boundary form of a configuration: an unverified reader of
/// some concrete syntax hands a document in, and a writer takes one out.
/// Which keys are required, which are defaulted, and what the defaults
/// are is decided here, by [`ConfigDoc::to_config`].
#[derive(Debug, Clone, PartialEq)]
pub struct ConfigDoc {
    /// The destination kind, from the document's `type` key.
    pub tag: Tag,
    /// The `level` key, if present.
    pub level: Option<Severity>,
    /// The `format` key, if present.
    pub format: Option<Format>,
    /// The `timezone` key, if present.
    pub timezone: Option<TimeZone>,
    /// The `path` key, if present.
    pub path: Option<String>,
    /// The `channel_size` key, if present.
    pub channel_size: Option<usize>,
    /// The terminal destination key, if present.
    pub destination: Option<Destination>,
}

/// The value under an optional document key: the value found there, or
/// the key's default where it was omitted.
pub open spec fn defaulted<T>(key: Option<T>, default: T) -> T {
    match key {
        Option::Some(v) => v,
        Option::None => default,
    }
}

/// Whether a document can produce a configuration: the tag decides which
/// keys are required, and only the file kind requires one, its path. A
/// missing required key is a configuration error, never a defaulted
/// value.
pub open spec fn doc_ok(d: ConfigDoc) -> bool {
    d.tag is File ==> d.path is Some
}

/// The configuration a well-formed document describes, each omitted
/// optional key at its default: level `Info`, format `Full`, time zone
/// `Local`, channel size 1024, terminal destination `Stderr`.
pub open spec fn config_of(d: ConfigDoc) -> LoggerConfig {
    match d.tag {
        Tag::File => LoggerConfig::File(FileLoggerConfig {
            level: defaulted(d.level, Severity::Info),
            format: defaulted(d.format, Format::Full),
            timezone: defaulted(d.timezone, TimeZone::Local),
            path: d.path->Some_0,
            channel_size: defaulted(d.channel_size, 1024),
        }),
        Tag::Null => LoggerConfig::Null(NullLoggerConfig {}),
        Tag::Terminal => LoggerConfig::Terminal(TerminalLoggerConfig {
            level: defaulted(d.level, Severity::Info),
            format: defaulted(d.format, Format::Full),
            timezone: defaulted(d.timezone, TimeZone::Local),
            destination: defaulted(d.destination, Destination::Stderr),
        }),
    }
}

/// The document that stores configuration `c`: every key of `c`'s
/// variant present, every key foreign to it absent.
pub open spec fn doc_of(c: LoggerConfig) -> ConfigDoc {
    match c {
        LoggerConfig::File(fc) => ConfigDoc {
            tag: Tag::File,
            level: Option::Some(fc.level),
            format: Option::Some(fc.format),
            timezone: Option::Some(fc.timezone),
            path: Option::Some(fc.path),
            channel_size: Option::Some(fc.channel_size),
            destination: Option::None,
        },
        LoggerConfig::Null(_) => ConfigDoc {
            tag: Tag::Null,
            level: Option::None,
            format: Option::None,
            timezone: Option::None,
            path: Option::None,
            channel_size: Option::None,
            destination: Option::None,
        },
        LoggerConfig::Terminal(tc) => ConfigDoc {
            tag: Tag::Terminal,
            level: Option::Some(tc.level),
            format: Option::Some(tc.format),
            timezone: Option::Some(tc.timezone),
            path: Option::None,
            channel_size: Option::None,
            destination: Option::Some(tc.destination),
        },
    }
}

impl ConfigDoc {
    /// Reads the configuration this document describes: the tag selects
    /// the variant, omitted optional keys take their defaults, and a
    /// file document without a path fails as `Invalid` — a missing
    /// required key is a configuration error, not an I/O error and not a
    /// default.
    pub fn to_config(&self) -> (r: Result<LoggerConfig, Error>)
        ensures
            doc_ok(*self) ==> r == Ok::<LoggerConfig, Error>(config_of(*self)),
            !doc_ok(*self) ==> r is Err && r->Err_0.spec_kind() == ErrorKind::Invalid,
    {
        match self.tag {
            Tag::File => {
                match &self.path {
                    Option::None => Err(
                        Error::invalid("a file logger needs a path, and none was given".to_owned()),
                    ),
                    Option::Some(p) => Ok(
                        LoggerConfig::File(FileLoggerConfig {
                            level: unwrap_severity(self.level),
                            format: unwrap_format(self.format),
                            timezone: unwrap_timezone(self.timezone),
                            path: p.clone(),
                            channel_size: unwrap_channel_size(self.channel_size),
                        }),
                    ),
                }
            },
            Tag::Null => Ok(LoggerConfig::Null(NullLoggerConfig {})),
            Tag::Terminal => Ok(
                LoggerConfig::Terminal(TerminalLoggerConfig {
                    level: unwrap_severity(self.level),
                    format: unwrap_format(self.format),
                    timezone: unwrap_timezone(self.timezone),
                    destination: unwrap_destination(self.destination),
                }),
            ),
        }
    }
}

impl LoggerConfig {
    /// Writes this configuration out as a document, every key of its
    /// variant present.
    pub fn to_doc(&self) -> (r: ConfigDoc)
        ensures
            r == doc_of(*self),
    {
        match self {
            LoggerConfig::File(fc) => ConfigDoc {
                tag: Tag::File,
                level: Option::Some(fc.level),
                format: Option::Some(fc.format),
                timezone: Option::Some(fc.timezone),
                path: Option::Some(fc.path.clone()),
                channel_size: Option::Some(fc.channel_size),
                destination: Option::None,
            },
            LoggerConfig::Null(_) => ConfigDoc {
                tag: Tag::Null,
                level: Option::None,
                format: Option::None,
                timezone: Option::None,
                path: Option::None,
                channel_size: Option::None,
                destination: Option::None,
            },
            LoggerConfig::Terminal(tc) => ConfigDoc {
                tag: Tag::Terminal,
                level: Option::Some(tc.level),
                format: Option::Some(tc.format),
                timezone: Option::Some(tc.timezone),
                path: Option::None,
                channel_size: Option::None,
                destination: Option::Some(tc.destination),
            },
        }
    }
}

/// The `level` key's value, defaulting to `Info` where it was omitted.
fn unwrap_severity(key: Option<Severity>) -> (r: Severity)
    ensures
        r == defaulted(key, Severity::Info),
{
    match key {
        Option::Some(v) => v,
        Option::None => Severity::Info,
    }
}

/// The `format` key's value, defaulting to `Full` where it was omitted.
fn unwrap_format(key: Option<Format>) -> (r: Format)
    ensures
        r == defaulted(key, Format::Full),
{
    match key {
        Option::Some(v) => v,
        Option::None => Format::Full,
    }
}

/// The `timezone` key's value, defaulting to `Local` where it was
/// omitted.
fn unwrap_timezone(key: Option<TimeZone>) -> (r: TimeZone)
    ensures
        r == defaulted(key, TimeZone::Local),
{
    match key {
        Option::Some(v) => v,
        Option::None => TimeZone::Local,
    }
}

/// The `channel_size` key's value, defaulting to 1024 where it was
/// omitted.
fn unwrap_channel_size(key: Option<usize>) -> (r: usize)
    ensures
        r == defaulted(key, 1024usize),
{
    match key {
        Option::Some(v) => v,
        Option::None => 1024,
    }
}

/// The terminal destination key's value, defaulting to `Stderr` where it
/// was omitted.
fn unwrap_destination(key: Option<Destination>) -> (r: Destination)
    ensures
        r == defaulted(key, Destination::Stderr),
{
    match key {
        Option::Some(v) => v,
        Option::None => Destination::Stderr,
    }
}

/// Round trip of the configuration codec: writing any configuration out
/// as a document and reading it back yields the configuration unchanged,
/// for every variant and every combination of field values. In
/// particular a written document is always well formed, so the read side
/// cannot fail on it.
pub proof fn lemma_config_doc_round_trip(c: LoggerConfig)
    ensures
        doc_ok(doc_of(c)),
        config_of(doc_of(c)) == c,
{
}

} // verus!
