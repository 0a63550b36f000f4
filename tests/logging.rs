use hilog::{
    formatter_source, record_tag, Builder, Emission, FormatterSource, HostLevel, Level, LevelFilter,
    LogDomain, Logger, Record, SlotState, TimestampPrecision,
};

fn record(level: Level, target: &str, module: Option<&str>, args: &str) -> Record {
    Record {
        level,
        target: String::from(target),
        module: module.map(String::from),
        args: String::from(args),
    }
}

fn logger_at(level: LevelFilter) -> Logger {
    let mut b = Builder::new();
    b.filter_level(level);
    b.build()
}

fn emit(logger: &Logger, r: &Record) -> Option<Emission> {
    let mut f = logger.formatter();
    let e = logger.log(&mut f, r);
    assert!(f.as_bytes().is_empty());
    e
}

#[test]
fn default_config_drops_info() {
    let logger = Builder::new().build();
    let r = record(Level::Info, "app::net", Some("app::net"), "hello");
    assert!(emit(&logger, &r).is_none());
    assert!(emit(&logger, &record(Level::Error, "app::net", None, "x")).is_none());
    assert_eq!(logger.filter(), LevelFilter::Off);
}

#[test]
fn info_record_default_format() {
    let logger = logger_at(LevelFilter::Info);
    let r = record(Level::Info, "app::net", Some("app::net"), "hello");
    let e = emit(&logger, &r).unwrap();
    assert_eq!(e.domain, LogDomain::new(0));
    assert_eq!(e.tag, b"app::net".to_vec());
    assert_eq!(e.level, HostLevel::Info);
    assert_eq!(e.message, b"[INFO  app::net] hello\n".to_vec());
}

#[test]
fn module_directive_overrides_default() {
    let mut b = Builder::new();
    b.filter_module("app::net", LevelFilter::Warn).filter_level(LevelFilter::Error);
    let logger = b.build();
    assert!(emit(&logger, &record(Level::Info, "app::net", Some("app::net"), "x")).is_none());
    let e = emit(&logger, &record(Level::Warn, "app::net", Some("app::net"), "x")).unwrap();
    assert_eq!(e.level, HostLevel::Warn);
    assert_eq!(e.message, b"[WARN  app::net] x\n".to_vec());
    assert!(emit(&logger, &record(Level::Warn, "other", None, "x")).is_none());
    assert!(emit(&logger, &record(Level::Error, "other", None, "x")).is_some());
}

#[test]
fn longest_prefix_decides() {
    let mut b = Builder::new();
    b.filter(Some("crate2"), LevelFilter::Info)
        .filter(Some("crate2::mod"), LevelFilter::Debug)
        .filter(Some("crate1::mod1"), LevelFilter::Warn);
    let logger = b.build();
    assert!(logger.enabled("crate2::mod1", Level::Debug));
    assert!(!logger.enabled("crate2", Level::Debug));
    assert!(logger.enabled("crate2", Level::Info));
    assert!(!logger.enabled("crate1::mod1", Level::Info));
    assert!(!logger.enabled("crate3", Level::Error));
    assert_eq!(logger.filter(), LevelFilter::Debug);
}

#[test]
fn same_name_directive_is_replaced() {
    let mut b = Builder::new();
    b.filter_module("a", LevelFilter::Trace).filter_module("a", LevelFilter::Error);
    let logger = b.build();
    assert!(!logger.enabled("a", Level::Warn));
    assert!(logger.enabled("a", Level::Error));
    assert_eq!(logger.filter(), LevelFilter::Error);
}

#[test]
fn level_hint_is_highest_directive() {
    let mut b = Builder::new();
    b.filter_module("x", LevelFilter::Warn).filter_module("y", LevelFilter::Trace).filter_level(LevelFilter::Off);
    assert_eq!(b.build().filter(), LevelFilter::Trace);
    let mut off = Builder::new();
    off.filter_level(LevelFilter::Off);
    let logger = off.build();
    assert_eq!(logger.filter(), LevelFilter::Off);
    assert!(emit(&logger, &record(Level::Error, "t", None, "x")).is_none());
}

#[test]
fn custom_text_is_emitted_as_written() {
    let logger = logger_at(LevelFilter::Trace);
    let r = record(Level::Debug, "t", Some("m"), "x");
    let mut f = logger.formatter();
    assert!(logger.enabled("t", Level::Debug));
    assert_eq!(f.write(b"x"), 1);
    f.flush();
    let e = logger.finish(&mut f, &r, true).unwrap();
    assert_eq!(e.message, b"x".to_vec());
    assert_eq!(e.level, HostLevel::Debug);
    assert_eq!(e.tag, b"m".to_vec());
    assert!(f.as_bytes().is_empty());
}

#[test]
fn failed_formatting_emits_nothing() {
    let logger = logger_at(LevelFilter::Trace);
    let r = record(Level::Info, "t", None, "x");
    let mut f = logger.formatter();
    f.write(b"partial");
    assert!(logger.finish(&mut f, &r, false).is_none());
    assert!(f.as_bytes().is_empty());
}

#[test]
fn indent_without_headers() {
    let mut b = Builder::new();
    b.filter_level(LevelFilter::Trace)
        .format_indent(Some(4))
        .format_level(false)
        .format_target(false)
        .format_module_path(false);
    let logger = b.build();
    let e = emit(&logger, &record(Level::Info, "t", Some("m"), "line1\nline2")).unwrap();
    assert_eq!(e.message, b"line1\n    line2\n".to_vec());
}

#[test]
fn indent_uses_suffix_and_width() {
    let mut b = Builder::new();
    b.filter_level(LevelFilter::Trace).format_indent(Some(2)).format_suffix("|").format_level(false).format_target(false);
    let logger = b.build();
    let e = emit(&logger, &record(Level::Info, "t", None, "a\nb\nc")).unwrap();
    assert_eq!(e.message, b"a|  b|  c|".to_vec());
    let e = emit(&logger, &record(Level::Info, "t", None, "a\n")).unwrap();
    assert_eq!(e.message, b"a|  |".to_vec());
}

#[test]
fn no_indent_writes_message_verbatim() {
    let mut b = Builder::new();
    b.filter_level(LevelFilter::Trace).format_indent(None).format_level(false).format_target(false);
    let logger = b.build();
    let e = emit(&logger, &record(Level::Info, "t", None, "a\nb")).unwrap();
    assert_eq!(e.message, b"a\nb\n".to_vec());
}

#[test]
fn all_header_fields_empty_message() {
    let mut b = Builder::new();
    b.filter_level(LevelFilter::Trace).format_module_path(true);
    let logger = b.build();
    let e = emit(&logger, &record(Level::Info, "m", Some("m"), "")).unwrap();
    assert_eq!(e.message, b"[INFO  m m] \n".to_vec());
}

#[test]
fn level_names_and_host_levels() {
    let logger = logger_at(LevelFilter::Trace);
    let cases = [
        (Level::Error, "[ERROR t] x\n", HostLevel::Error),
        (Level::Warn, "[WARN  t] x\n", HostLevel::Warn),
        (Level::Info, "[INFO  t] x\n", HostLevel::Info),
        (Level::Debug, "[DEBUG t] x\n", HostLevel::Debug),
        (Level::Trace, "[TRACE t] x\n", HostLevel::Debug),
    ];
    for (level, text, host) in cases {
        let e = emit(&logger, &record(level, "t", None, "x")).unwrap();
        assert_eq!(e.message, text.as_bytes().to_vec());
        assert_eq!(e.level, host);
    }
}

#[test]
fn empty_target_is_not_written() {
    let logger = logger_at(LevelFilter::Trace);
    let e = emit(&logger, &record(Level::Info, "", None, "x")).unwrap();
    assert_eq!(e.message, b"[INFO ] x\n".to_vec());
    let mut b = Builder::new();
    b.filter_level(LevelFilter::Trace).format_level(false);
    let e = emit(&b.build(), &record(Level::Info, "", None, "x")).unwrap();
    assert_eq!(e.message, b"x\n".to_vec());
}

#[test]
fn nul_in_module_path_gives_empty_tag() {
    let logger = logger_at(LevelFilter::Trace);
    let r = record(Level::Info, "t", Some("a\0b"), "x");
    assert!(record_tag(&r).is_empty());
    let e = emit(&logger, &r).unwrap();
    assert!(e.tag.is_empty());
    assert_eq!(e.message, b"[INFO  t] x\n".to_vec());
    assert!(record_tag(&record(Level::Info, "t", None, "x")).is_empty());
}

#[test]
fn nul_in_message_truncates() {
    let logger = logger_at(LevelFilter::Trace);
    let e = emit(&logger, &record(Level::Info, "t", None, "ab\0cd")).unwrap();
    assert_eq!(e.message, b"[INFO  t] ab".to_vec());
}

#[test]
fn domain_is_carried() {
    let mut b = Builder::new();
    b.set_domain(LogDomain::new(0xBEEF)).filter_level(LevelFilter::Info);
    let e = emit(&b.build(), &record(Level::Info, "t", None, "x")).unwrap();
    assert_eq!(e.domain, LogDomain::new(0xBEEF));
    assert_eq!(e.domain.value(), 0xBEEF);
}

#[test]
fn default_format_resets_settings() {
    let mut b = Builder::new();
    b.filter_level(LevelFilter::Trace)
        .format_level(false)
        .format_suffix("!")
        .format_timestamp_nanos()
        .default_format();
    let e = emit(&b.build(), &record(Level::Info, "t", None, "x")).unwrap();
    assert_eq!(e.message, b"[INFO  t] x\n".to_vec());
}

#[test]
fn timestamp_settings_render_nothing() {
    let mut b = Builder::new();
    b.filter_level(LevelFilter::Trace).format_timestamp_millis().format_timestamp_micros().format_timestamp_secs();
    b.format_timestamp(Some(TimestampPrecision::default()));
    let e = emit(&b.build(), &record(Level::Info, "t", None, "x")).unwrap();
    assert_eq!(e.message, b"[INFO  t] x\n".to_vec());
}

#[test]
fn single_build_succeeds() {
    let mut b = Builder::new();
    assert!(!b.is_built());
    let logger = b.build();
    assert!(b.is_built());
    assert_eq!(logger.filter(), LevelFilter::Off);
    let mut d = Builder::default();
    d.filter_level(LevelFilter::Warn);
    assert_eq!(d.build().filter(), LevelFilter::Warn);
}

#[test]
fn buffer_is_empty_after_each_log() {
    let logger = logger_at(LevelFilter::Info);
    let mut f = logger.formatter();
    for i in 0..10 {
        let level = if i % 2 == 0 { Level::Info } else { Level::Debug };
        let e = logger.log(&mut f, &record(level, "t", None, "msg"));
        assert_eq!(e.is_some(), i % 2 == 0);
        assert!(f.as_bytes().is_empty());
    }
}

#[test]
fn formatter_sources() {
    assert_eq!(formatter_source(SlotState::Holding), FormatterSource::Slot);
    assert_eq!(formatter_source(SlotState::Empty), FormatterSource::NewInSlot);
    assert_eq!(formatter_source(SlotState::Borrowed), FormatterSource::OneShot);
    assert_eq!(formatter_source(SlotState::Unavailable), FormatterSource::OneShot);
}

#[test]
fn reentrant_record_leaves_outer_buffer_alone() {
    let logger = logger_at(LevelFilter::Trace);
    let outer = record(Level::Info, "outer", None, "o");
    let mut slot = logger.formatter();
    slot.write(b"[INFO  outer] ");
    // the inner call finds the slot borrowed and uses a one-shot formatter
    assert_eq!(formatter_source(SlotState::Borrowed), FormatterSource::OneShot);
    let mut one_shot = logger.formatter();
    let inner = logger.log(&mut one_shot, &record(Level::Warn, "inner", None, "i")).unwrap();
    assert_eq!(inner.message, b"[WARN  inner] i\n".to_vec());
    assert_eq!(slot.as_bytes(), b"[INFO  outer] ");
    slot.write(b"o\n");
    let e = logger.finish(&mut slot, &outer, true).unwrap();
    assert_eq!(e.message, b"[INFO  outer] o\n".to_vec());
}

#[test]
fn torn_down_slot_still_emits_once() {
    let logger = logger_at(LevelFilter::Trace);
    assert_eq!(formatter_source(SlotState::Unavailable), FormatterSource::OneShot);
    let mut one_shot = logger.formatter();
    let e = logger.log(&mut one_shot, &record(Level::Info, "t", None, "late"));
    assert_eq!(e.unwrap().message, b"[INFO  t] late\n".to_vec());
}

#[test]
fn two_formatters_interleaved() {
    let logger = logger_at(LevelFilter::Trace);
    let mut fa = logger.formatter();
    let mut fb = logger.formatter();
    let mut count = 0;
    for i in 0..1000 {
        let a = logger.log(&mut fa, &record(Level::Info, "a", None, &format!("a{}", i))).unwrap();
        let b = logger.log(&mut fb, &record(Level::Info, "b", None, &format!("b{}", i))).unwrap();
        assert_eq!(a.message, format!("[INFO  a] a{}\n", i).into_bytes());
        assert_eq!(b.message, format!("[INFO  b] b{}\n", i).into_bytes());
        count += 2;
    }
    assert_eq!(count, 2000);
}


#[test]
fn longer_name_added_first_still_wins() {
    let mut b = Builder::new();
    b.filter_module("ab", LevelFilter::Trace)
        .filter_module("a", LevelFilter::Error)
        .filter(Some(""), LevelFilter::Warn)
        .filter_level(LevelFilter::Info);
    let logger = b.build();
    assert!(b.is_built());
    assert!(logger.enabled("abc", Level::Trace));
    assert!(!logger.enabled("ax", Level::Warn));
    assert!(logger.enabled("ax", Level::Error));
    assert!(logger.enabled("z", Level::Info));
    assert!(!logger.enabled("z", Level::Debug));
    assert_eq!(logger.filter(), LevelFilter::Trace);
}

#[test]
fn multibyte_names_decide_by_prefix() {
    let mut b = Builder::new();
    b.filter_module("\u{e9}\u{e9}", LevelFilter::Info).filter_module("abc", LevelFilter::Warn);
    let logger = b.build();
    assert!(logger.enabled("\u{e9}\u{e9}::x", Level::Info));
    assert!(!logger.enabled("\u{e9}\u{e9}::x", Level::Debug));
    assert!(logger.enabled("abcd", Level::Warn));
    assert!(!logger.enabled("abcd", Level::Info));
    assert!(!logger.enabled("zz", Level::Error));
    assert_eq!(logger.filter(), LevelFilter::Info);
}

#[test]
fn stale_buffer_does_not_leak_into_message() {
    let logger = logger_at(LevelFilter::Info);
    let mut f = logger.formatter();
    f.write(b"stale");
    let e = logger.log(&mut f, &record(Level::Info, "t", None, "x")).unwrap();
    assert_eq!(e.message, b"[INFO  t] x\n".to_vec());
    assert!(f.as_bytes().is_empty());
}

#[test]
fn rejected_record_leaves_buffer_empty() {
    let logger = logger_at(LevelFilter::Error);
    let mut f = logger.formatter();
    f.write(b"stale");
    assert!(logger.log(&mut f, &record(Level::Info, "t", None, "x")).is_none());
    assert!(f.as_bytes().is_empty());
}
