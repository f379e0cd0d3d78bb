use sloggers::config::{ConfigDoc, LoggerBuilder, LoggerConfig, Tag};
use sloggers::error::ErrorKind;
use sloggers::file::{default_channel_size, FileAppender, FileLoggerBuilder, FileLoggerConfig, FlushPlan};
use sloggers::null::{NullLoggerBuilder, NullLoggerConfig};
use sloggers::terminal::{Destination, TerminalLoggerConfig};
use sloggers::types::{Format, Severity, TimeZone};

const LEVELS: [Severity; 6] = [
    Severity::Trace,
    Severity::Debug,
    Severity::Info,
    Severity::Warning,
    Severity::Error,
    Severity::Critical,
];

#[test]
fn severity_order_is_total_and_filter_respects_it() {
    for i in 0..LEVELS.len() {
        for j in 0..LEVELS.len() {
            let record = LEVELS[i];
            let minimum = LEVELS[j];
            // A record passes exactly when its level is at or above the minimum.
            assert_eq!(record.passes(minimum), i >= j);
        }
    }
}

#[test]
fn severity_below_minimum_is_dropped_and_minimum_itself_passes() {
    for i in 0..LEVELS.len() {
        for j in (i + 1)..LEVELS.len() {
            assert!(!LEVELS[i].passes(LEVELS[j]));
            assert!(LEVELS[j].passes(LEVELS[j]));
        }
    }
}

#[test]
fn severity_ranks_are_the_documented_order() {
    for (i, level) in LEVELS.iter().enumerate() {
        assert_eq!(level.as_rank() as usize, i);
    }
}

#[test]
fn defaults_are_info_full_local_stderr() {
    assert_eq!(Severity::default(), Severity::Info);
    assert_eq!(Format::default(), Format::Full);
    assert_eq!(TimeZone::default(), TimeZone::Local);
    assert_eq!(Destination::default(), Destination::Stderr);
    assert_eq!(default_channel_size(), 1024);
}

#[test]
fn severity_names_round_trip() {
    for level in LEVELS {
        assert_eq!(Severity::from_name(level.name()), Some(level));
    }
    assert_eq!(Severity::from_name("info"), Some(Severity::Info));
    assert_eq!(Severity::from_name("warn"), None);
    assert_eq!(Severity::from_name(""), None);
}

#[test]
fn format_and_timezone_and_tag_names_round_trip() {
    for format in [Format::Full, Format::Compact] {
        assert_eq!(Format::from_name(format.name()), Some(format));
    }
    for zone in [TimeZone::Local, TimeZone::Utc] {
        assert_eq!(TimeZone::from_name(zone.name()), Some(zone));
    }
    for tag in [Tag::File, Tag::Null, Tag::Terminal] {
        assert_eq!(Tag::from_name(tag.name()), Some(tag));
    }
    assert_eq!(Format::from_name("fancy"), None);
    assert_eq!(TimeZone::from_name("cet"), None);
    assert_eq!(Tag::from_name("syslog"), None);
}

#[test]
fn fresh_appender_has_no_handle_and_flush_is_noop() {
    let appender = FileAppender::new("/tmp/x.log".to_string());
    assert_eq!(appender.path(), "/tmp/x.log");
    assert!(!appender.can_write());
    assert_eq!(appender.flush_plan(), FlushPlan::NoopOk);
}

#[test]
fn appender_reopens_when_path_is_gone_or_no_handle_is_held() {
    let mut appender = FileAppender::new("/tmp/x.log".to_string());
    // No handle yet: must open even though the path exists.
    assert!(appender.needs_reopen(true));
    appender.handle_opened();
    // Handle held and path still there: the handle is reused.
    assert!(!appender.needs_reopen(true));
    assert!(appender.can_write());
    assert_eq!(appender.flush_plan(), FlushPlan::FlushHeld);
    // The file was deleted externally: the held handle is stale and the
    // next write must recreate the file at the same path.
    assert!(appender.needs_reopen(false));
}

#[test]
fn appender_duplicate_starts_without_a_handle() {
    let mut original = FileAppender::new("/tmp/x.log".to_string());
    original.handle_opened();
    let copy = original.duplicate();
    assert_eq!(copy.path(), "/tmp/x.log");
    // The copy never inherits the open handle ...
    assert!(!copy.can_write());
    assert!(copy.needs_reopen(true));
    assert_eq!(copy.flush_plan(), FlushPlan::NoopOk);
    // ... and taking the copy leaves the original's handle in place.
    assert!(original.can_write());
    assert!(!original.needs_reopen(true));
}

#[test]
fn file_builder_starts_with_defaults() {
    let builder = FileLoggerBuilder::new("/tmp/x.log".to_string());
    assert_eq!(builder.format, Format::Full);
    assert_eq!(builder.timezone, TimeZone::Local);
    assert_eq!(builder.level, Severity::Info);
    assert_eq!(builder.channel_size, 1024);
    assert_eq!(builder.appender.path(), "/tmp/x.log");
}

#[test]
fn file_builder_setters_chain_onto_one_builder() {
    let mut builder = FileLoggerBuilder::new("/tmp/x.log".to_string());
    builder.format(Format::Compact);
    builder.timezone(TimeZone::Utc);
    builder.level(Severity::Error);
    builder.channel_size(16);
    assert_eq!(builder.format, Format::Compact);
    assert_eq!(builder.timezone, TimeZone::Utc);
    assert_eq!(builder.level, Severity::Error);
    assert_eq!(builder.channel_size, 16);
    assert_eq!(builder.appender.path(), "/tmp/x.log");
}

fn sample_file_config() -> FileLoggerConfig {
    FileLoggerConfig {
        level: Severity::Debug,
        format: Format::Compact,
        timezone: TimeZone::Utc,
        path: "/tmp/x.log".to_string(),
        channel_size: 7,
    }
}

#[test]
fn dispatch_resolves_a_file_config_to_its_builder() {
    let config = LoggerConfig::File(sample_file_config());
    match config.try_to_builder() {
        Ok(LoggerBuilder::File(builder)) => {
            assert_eq!(builder.level, Severity::Debug);
            assert_eq!(builder.format, Format::Compact);
            assert_eq!(builder.timezone, TimeZone::Utc);
            assert_eq!(builder.channel_size, 7);
            assert_eq!(builder.appender.path(), "/tmp/x.log");
            assert!(!builder.appender.can_write());
        }
        _ => panic!("a file config must resolve to a file builder"),
    }
}

#[test]
fn dispatch_resolves_null_and_terminal_configs() {
    let null = LoggerConfig::Null(NullLoggerConfig {});
    match null.try_to_builder() {
        Ok(LoggerBuilder::Null(NullLoggerBuilder)) => {}
        _ => panic!("a null config must resolve to the null builder"),
    }
    let terminal = LoggerConfig::Terminal(TerminalLoggerConfig {
        level: Severity::Warning,
        format: Format::Compact,
        timezone: TimeZone::Utc,
        destination: Destination::Stdout,
    });
    match terminal.try_to_builder() {
        Ok(LoggerBuilder::Terminal(builder)) => {
            assert_eq!(builder.level, Severity::Warning);
            assert_eq!(builder.format, Format::Compact);
            assert_eq!(builder.timezone, TimeZone::Utc);
            assert_eq!(builder.destination, Destination::Stdout);
        }
        _ => panic!("a terminal config must resolve to a terminal builder"),
    }
}

#[test]
fn empty_path_fails_dispatch_with_invalid_not_other() {
    let config = LoggerConfig::File(FileLoggerConfig {
        level: Severity::Info,
        format: Format::Full,
        timezone: TimeZone::Local,
        path: String::new(),
        channel_size: 1024,
    });
    match config.try_to_builder() {
        Err(error) => assert_eq!(error.kind(), ErrorKind::Invalid),
        Ok(_) => panic!("an empty path must be rejected"),
    }
}

#[test]
fn config_document_round_trips_for_every_variant() {
    let configs = [
        LoggerConfig::File(sample_file_config()),
        LoggerConfig::Null(NullLoggerConfig {}),
        LoggerConfig::Terminal(TerminalLoggerConfig {
            level: Severity::Critical,
            format: Format::Full,
            timezone: TimeZone::Local,
            destination: Destination::Stderr,
        }),
    ];
    for config in configs {
        let doc = config.to_doc();
        assert_eq!(doc.to_config().unwrap(), config);
    }
}

#[test]
fn omitted_optional_keys_take_their_defaults() {
    let sparse_file = ConfigDoc {
        tag: Tag::File,
        level: None,
        format: None,
        timezone: None,
        path: Some("/tmp/x.log".to_string()),
        channel_size: None,
        destination: None,
    };
    let expected = LoggerConfig::File(FileLoggerConfig {
        level: Severity::Info,
        format: Format::Full,
        timezone: TimeZone::Local,
        path: "/tmp/x.log".to_string(),
        channel_size: 1024,
    });
    assert_eq!(sparse_file.to_config().unwrap(), expected);

    let sparse_terminal = ConfigDoc {
        tag: Tag::Terminal,
        level: None,
        format: None,
        timezone: None,
        path: None,
        channel_size: None,
        destination: None,
    };
    let expected = LoggerConfig::Terminal(TerminalLoggerConfig {
        level: Severity::Info,
        format: Format::Full,
        timezone: TimeZone::Local,
        destination: Destination::Stderr,
    });
    assert_eq!(sparse_terminal.to_config().unwrap(), expected);
}

#[test]
fn file_document_without_path_is_invalid() {
    let doc = ConfigDoc {
        tag: Tag::File,
        level: Some(Severity::Debug),
        format: None,
        timezone: None,
        path: None,
        channel_size: None,
        destination: None,
    };
    match doc.to_config() {
        Err(error) => assert_eq!(error.kind(), ErrorKind::Invalid),
        Ok(_) => panic!("a file document without a path must be rejected"),
    }
}

#[test]
fn error_constructors_carry_kind_and_message() {
    let invalid = sloggers::error::Error::invalid("bad knob".to_string());
    assert_eq!(invalid.kind(), ErrorKind::Invalid);
    assert_eq!(invalid.message(), "bad knob");
    let other = sloggers::error::Error::other("disk on fire".to_string());
    assert_eq!(other.kind(), ErrorKind::Other);
    assert_eq!(other.message(), "disk on fire");
}
