//! Value types shared by every logger kind: severity levels, record
//! formats and time-zone selection.

use vstd::prelude::*;

verus! {

/// The severity of a log record, also used as a logger's minimum level.
///
/// The six levels are totally ordered: `Trace < Debug < Info < Warning <
/// Error < Critical`.
#[derive(Debug, Clone, Copy, PartialEq, Eq, Structural)]
pub enum Severity {
    Trace,
    Debug,
    Info,
    Warning,
    Error,
    Critical,
}

impl Severity {
    /// The position of a level in the total order, `Trace` lowest.
    pub open spec fn rank(self) -> int {
        match self {
            Severity::Trace => 0,
            Severity::Debug => 1,
            Severity::Info => 2,
            Severity::Warning => 3,
            Severity::Error => 4,
            Severity::Critical => 5,
        }
    }

    /// Whether a record at level `self` passes a filter whose minimum
    /// level is `min`.
    pub open spec fn spec_passes(self, min: Severity) -> bool {
        self.rank() >= min.rank()
    }

    /// The severity filter: a record at level `self` is kept by a logger
    /// configured with minimum level `min` exactly when `self` is at or
    /// above `min` in the level order.
    pub fn passes(self, min: Severity) -> (r: bool)
        ensures
            r == self.spec_passes(min),
    {
        self.as_rank() >= min.as_rank()
    }

    /// The position of a level in the total order, as a machine integer.
    pub fn as_rank(self) -> (r: u8)
        ensures
            r as int == self.rank(),
    {
        match self {
            Severity::Trace => 0,
            Severity::Debug => 1,
            Severity::Info => 2,
            Severity::Warning => 3,
            Severity::Error => 4,
            Severity::Critical => 5,
        }
    }

    /// The name of a level in a configuration document.
    pub open spec fn spec_name(self) -> Seq<char> {
        match self {
            Severity::Trace => "trace"@,
            Severity::Debug => "debug"@,
            Severity::Info => "info"@,
            Severity::Warning => "warning"@,
            Severity::Error => "error"@,
            Severity::Critical => "critical"@,
        }
    }

    /// The level a configuration document names, if any.
    pub open spec fn spec_from_name(s: Seq<char>) -> Option<Severity> {
        if s == "trace"@ {
            Option::Some(Severity::Trace)
        } else if s == "debug"@ {
            Option::Some(Severity::Debug)
        } else if s == "info"@ {
            Option::Some(Severity::Info)
        } else if s == "warning"@ {
            Option::Some(Severity::Warning)
        } else if s == "error"@ {
            Option::Some(Severity::Error)
        } else if s == "critical"@ {
            Option::Some(Severity::Critical)
        } else {
            Option::None
        }
    }

    /// The name of this level in a configuration document.
    pub fn name(&self) -> (r: &'static str)
        ensures
            r@ == self.spec_name(),
    {
        match self {
            Severity::Trace => "trace",
            Severity::Debug => "debug",
            Severity::Info => "info",
            Severity::Warning => "warning",
            Severity::Error => "error",
            Severity::Critical => "critical",
        }
    }

    /// Reads a level from its name in a configuration document; an
    /// unknown name is `None`.
    pub fn from_name(s: &str) -> (r: Option<Severity>)
        ensures
            r == Severity::spec_from_name(s@),
    {
        let o = s.to_owned();
        if o == "trace".to_owned() {
            Some(Severity::Trace)
        } else if o == "debug".to_owned() {
            Some(Severity::Debug)
        } else if o == "info".to_owned() {
            Some(Severity::Info)
        } else if o == "warning".to_owned() {
            Some(Severity::Warning)
        } else if o == "error".to_owned() {
            Some(Severity::Error)
        } else if o == "critical".to_owned() {
            Some(Severity::Critical)
        } else {
            None
        }
    }
}

impl Default for Severity {
    /// The default minimum level is `Info`.
    fn default() -> (r: Self)
        ensures
            r == Severity::Info,
    {
        Severity::Info
    }
}

/// How much detail a rendered record carries.
#[derive(Debug, Clone, Copy, PartialEq, Eq, Structural)]
pub enum Format {
    Full,
    Compact,
}

impl Format {
    /// The name of a format in a configuration document.
    pub open spec fn spec_name(self) -> Seq<char> {
        match self {
            Format::Full => "full"@,
            Format::Compact => "compact"@,
        }
    }

    /// The format a configuration document names, if any.
    pub open spec fn spec_from_name(s: Seq<char>) -> Option<Format> {
        if s == "full"@ {
            Option::Some(Format::Full)
        } else if s == "compact"@ {
            Option::Some(Format::Compact)
        } else {
            Option::None
        }
    }

    /// The name of this format in a configuration document.
    pub fn name(&self) -> (r: &'static str)
        ensures
            r@ == self.spec_name(),
    {
        match self {
            Format::Full => "full",
            Format::Compact => "compact",
        }
    }

    /// Reads a format from its name in a configuration document; an
    /// unknown name is `None`.
    pub fn from_name(s: &str) -> (r: Option<Format>)
        ensures
            r == Format::spec_from_name(s@),
    {
        let o = s.to_owned();
        if o == "full".to_owned() {
            Some(Format::Full)
        } else if o == "compact".to_owned() {
            Some(Format::Compact)
        } else {
            None
        }
    }
}

impl Default for Format {
    /// The default record format is `Full`.
    fn default() -> (r: Self)
        ensures
            r == Format::Full,
    {
        Format::Full
    }
}

/// The time zone in which a record's timestamp is rendered.
#[derive(Debug, Clone, Copy, PartialEq, Eq, Structural)]
pub enum TimeZone {
    Local,
    Utc,
}

impl TimeZone {
    /// The name of a time zone in a configuration document.
    pub open spec fn spec_name(self) -> Seq<char> {
        match self {
            TimeZone::Local => "local"@,
            TimeZone::Utc => "utc"@,
        }
    }

    /// The time zone a configuration document names, if any.
    pub open spec fn spec_from_name(s: Seq<char>) -> Option<TimeZone> {
        if s == "local"@ {
            Option::Some(TimeZone::Local)
        } else if s == "utc"@ {
            Option::Some(TimeZone::Utc)
        } else {
            Option::None
        }
    }

    /// The name of this time zone in a configuration document.
    pub fn name(&self) -> (r: &'static str)
        ensures
            r@ == self.spec_name(),
    {
        match self {
            TimeZone::Local => "local",
            TimeZone::Utc => "utc",
        }
    }

    /// Reads a time zone from its name in a configuration document; an
    /// unknown name is `None`.
    pub fn from_name(s: &str) -> (r: Option<TimeZone>)
        ensures
            r == TimeZone::spec_from_name(s@),
    {
        let o = s.to_owned();
        if o == "local".to_owned() {
            Some(TimeZone::Local)
        } else if o == "utc".to_owned() {
            Some(TimeZone::Utc)
        } else {
            None
        }
    }
}

impl Default for TimeZone {
    /// The default time zone is `Local`.
    fn default() -> (r: Self)
        ensures
            r == TimeZone::Local,
    {
        TimeZone::Local
    }
}

/// The severity filter drops exactly the records below the configured
/// minimum: whenever `s1` is strictly below `s2`, a record at `s1` is
/// rejected by a filter with minimum `s2`, while a record at `s2` itself
/// passes.
pub proof fn lemma_filter_respects_order(s1: Severity, s2: Severity)
    requires
        s1.rank() < s2.rank(),
    ensures
        !s1.spec_passes(s2),
        s2.spec_passes(s2),
{
}

/// The names of the severity levels are distinct: reading a written name
/// back yields the level it named.
pub proof fn lemma_severity_name_round_trip(s: Severity)
    ensures
        Severity::spec_from_name(s.spec_name()) == Some(s),
{
    reveal_strlit("trace");
    reveal_strlit("debug");
    reveal_strlit("info");
    reveal_strlit("warning");
    reveal_strlit("error");
    reveal_strlit("critical");
    assert("trace"@.len() == 5);
    assert("debug"@.len() == 5);
    assert("info"@.len() == 4);
    assert("warning"@.len() == 7);
    assert("error"@.len() == 5);
    assert("critical"@.len() == 8);
    assert("trace"@[0] != "debug"@[0]);
    assert("trace"@[0] != "error"@[0]);
    assert("debug"@[0] != "error"@[0]);
    assert("trace"@ != "debug"@);
    assert("trace"@ != "info"@);
    assert("trace"@ != "warning"@);
    assert("trace"@ != "error"@);
    assert("trace"@ != "critical"@);
    assert("debug"@ != "info"@);
    assert("debug"@ != "warning"@);
    assert("debug"@ != "error"@);
    assert("debug"@ != "critical"@);
    assert("info"@ != "warning"@);
    assert("info"@ != "error"@);
    assert("info"@ != "critical"@);
    assert("warning"@ != "error"@);
    assert("warning"@ != "critical"@);
    assert("error"@ != "critical"@);
    match s {
        Severity::Trace => assert(Severity::spec_from_name("trace"@) == Some(Severity::Trace)),
        Severity::Debug => assert(Severity::spec_from_name("debug"@) == Some(Severity::Debug)),
        Severity::Info => assert(Severity::spec_from_name("info"@) == Some(Severity::Info)),
        Severity::Warning => assert(Severity::spec_from_name("warning"@) == Some(
            Severity::Warning,
        )),
        Severity::Error => assert(Severity::spec_from_name("error"@) == Some(Severity::Error)),
        Severity::Critical => assert(Severity::spec_from_name("critical"@) == Some(
            Severity::Critical,
        )),
    }
}

/// The names of the record formats are distinct: reading a written name
/// back yields the format it named.
pub proof fn lemma_format_name_round_trip(f: Format)
    ensures
        Format::spec_from_name(f.spec_name()) == Some(f),
{
    reveal_strlit("full");
    reveal_strlit("compact");
    assert("full"@.len() == 4);
    assert("compact"@.len() == 7);
    assert("full"@ != "compact"@);
    match f {
        Format::Full => assert(Format::spec_from_name("full"@) == Some(Format::Full)),
        Format::Compact => assert(Format::spec_from_name("compact"@) == Some(Format::Compact)),
    }
}

/// The names of the time zones are distinct: reading a written name back
/// yields the time zone it named.
pub proof fn lemma_timezone_name_round_trip(z: TimeZone)
    ensures
        TimeZone::spec_from_name(z.spec_name()) == Some(z),
{
    reveal_strlit("local");
    reveal_strlit("utc");
    assert("local"@.len() == 5);
    assert("utc"@.len() == 3);
    assert("local"@ != "utc"@);
    match z {
        TimeZone::Local => assert(TimeZone::spec_from_name("local"@) == Some(TimeZone::Local)),
        TimeZone::Utc => assert(TimeZone::spec_from_name("utc"@) == Some(TimeZone::Utc)),
    }
}

} // verus!
