//! A `log` style logger for the HiLog service of OpenHarmony: records are
//! filtered by `target=level` directives, rendered into a per-thread byte
//! buffer, and handed to the host as (domain, tag, level, message).
use vstd::prelude::*;
use vstd::utf8::encode_utf8;
use env_filter::Builder as FilterBuilder;
use crate::filter::{
    add_directive, build_filter, builder_consumed, builder_directives, configured_directives,
    deciding, directives_enable, filter_directives, filter_enabled, filter_max_level,
    insert_directive, insert_directive_nonempty, max_level, new_filter_builder, sorted_by_name_len,
    DirectiveView,
};
use crate::laws::sorting_keeps_decisions;
use crate::level::host_level_of;
use crate::ohfmt::builder::{default_settings, rendered, DefaultFormat};
use crate::ohfmt::writer::{until_nul, HilogWriter};

pub mod filter;
pub mod laws;
pub mod level;
pub mod ohfmt;

pub use level::{HostLevel, Level, LevelFilter};
pub use ohfmt::{HilogFormatter, TimestampPrecision};

verus! {

/// Service domain of logs.
///
/// The user can set this value as required; the host can filter by it.
#[derive(Copy, Clone, Default, Debug, PartialEq, Eq, Structural, PartialOrd, Ord)]
pub struct LogDomain(u16);

impl View for LogDomain {
    type V = u16;

    closed spec fn view(&self) -> u16 {
        self.0
    }
}

impl LogDomain {
    /// Creates a new domain; every value 0-0xFFFF is valid.
    pub fn new(domain: u16) -> (r: Self)
        ensures
            r@ == domain,
    {
        LogDomain(domain)
    }

    /// The domain's number.
    pub fn value(&self) -> (r: u16)
        ensures
            r == self@,
    {
        self.0
    }
}

/// A log record: its level, target, module path and the rendered message.
pub struct Record {
    pub level: Level,
    pub target: String,
    pub module: Option<String>,
    pub args: String,
}

/// One call of the host's log function.
pub struct Emission {
    pub domain: LogDomain,
    pub tag: Vec<u8>,
    pub level: HostLevel,
    pub message: Vec<u8>,
}

/// The tag of a record: its module path, or empty where it has none or where
/// it holds a NUL byte (the host takes the tag as a C string).
pub open spec fn tag_of(r: Record) -> Seq<u8> {
    match r.module {
        Some(p) => if encode_utf8(p@).contains(0u8) {
            Seq::empty()
        } else {
            encode_utf8(p@)
        },
        None => Seq::empty(),
    }
}

/// `e` is the emission for record `r` in `domain` when `text` was rendered.
pub open spec fn emits(e: Emission, domain: LogDomain, r: Record, text: Seq<u8>) -> bool {
    &&& e.domain == domain
    &&& e.tag@ == tag_of(r)
    &&& e.level == host_level_of(r.level)
    &&& e.message@ == until_nul(text)
}

/// The tag for `record`.
pub fn record_tag(record: &Record) -> (r: Vec<u8>)
    ensures
        r@ == tag_of(*record),
{
    let mut tag: Vec<u8> = Vec::new();
    match &record.module {
        None => {},
        Some(path) => {
            let bytes = path.as_str().as_bytes();
            let mut i: usize = 0;
            while i < bytes.len()
                invariant
                    i <= bytes@.len(),
                    bytes@ == encode_utf8(path@),
                    record.module == Some(*path),
                    tag@ == bytes@.subrange(0, i as int),
                    forall|j: int| 0 <= j < i ==> bytes@[j] != 0u8,
                decreases bytes@.len() - i,
            {
                if bytes[i] == 0u8 {
                    assert(bytes@[i as int] == 0u8);
                    assert(encode_utf8(path@).contains(0u8));
                    let empty: Vec<u8> = Vec::new();
                    assert(empty@ == tag_of(*record));
                    return empty;
                }
                tag.push(bytes[i]);
                i += 1;
                assert(tag@ == bytes@.subrange(0, i as int));
            }
            assert(bytes@.subrange(0, bytes@.len() as int) == bytes@);
        },
    }
    tag
}

/// Where the formatter for one `log` call comes from, given the state of the
/// calling thread's formatter slot.
#[derive(Copy, Clone, Debug, PartialEq, Eq, Structural)]
pub enum SlotState {
    /// The thread's storage has already been torn down.
    Unavailable,
    /// The slot is in use further up the stack: a reentrant call.
    Borrowed,
    /// The slot is free and holds no formatter yet.
    Empty,
    /// The slot is free and holds a formatter.
    Holding,
}

#[derive(Copy, Clone, Debug, PartialEq, Eq, Structural)]
pub enum FormatterSource {
    /// Use the formatter held in the slot.
    Slot,
    /// Make a formatter, use it, then leave it in the slot.
    NewInSlot,
    /// Make a formatter for this call only; the slot is not touched.
    OneShot,
}

/// Picks the formatter for a call: the slot's while it is free, a one-shot
/// one when the slot is borrowed or gone.
pub fn formatter_source(slot: SlotState) -> (r: FormatterSource)
    ensures
        slot == SlotState::Holding ==> r == FormatterSource::Slot,
        slot == SlotState::Empty ==> r == FormatterSource::NewInSlot,
        (slot == SlotState::Borrowed || slot == SlotState::Unavailable) ==> r == FormatterSource::OneShot,
{
    match slot {
        SlotState::Holding => FormatterSource::Slot,
        SlotState::Empty => FormatterSource::NewInSlot,
        SlotState::Borrowed => FormatterSource::OneShot,
        SlotState::Unavailable => FormatterSource::OneShot,
    }
}

/// Filters records, renders them with the default format and produces what
/// the host is to receive.
pub struct Logger {
    domain: LogDomain,
    filter: env_filter::Filter,
    writer: HilogWriter,
    format: DefaultFormat,
}

impl Logger {
    pub closed spec fn domain(&self) -> LogDomain {
        self.domain
    }

    /// The filter's directives, as it stores them: sorted stably by the byte
    /// length of the names.
    pub closed spec fn directives(&self) -> Seq<DirectiveView> {
        filter_directives(self.filter)
    }

    pub closed spec fn format(&self) -> DefaultFormat {
        self.format
    }

    /// Returns the most verbose level that this logger lets through.
    pub fn filter(&self) -> (r: LevelFilter)
        ensures
            r == max_level(self.directives()),
    {
        filter_max_level(&self.filter)
    }

    /// Whether a record at `level` for `target` passes the filter.
    pub fn enabled(&self, target: &str, level: Level) -> (r: bool)
        ensures
            r == directives_enable(self.directives(), target@, level),
    {
        filter_enabled(&self.filter, target, level)
    }

    /// A formatter over a fresh buffer.
    pub fn formatter(&self) -> (r: HilogFormatter)
        ensures
            r@ == Seq::<u8>::empty(),
    {
        HilogFormatter::new(&self.writer)
    }

    /// Ends a record whose text is in `formatter`: where it was rendered
    /// without error, the emission for it; always clears the buffer.
    pub fn finish(&self, formatter: &mut HilogFormatter, record: &Record, formatted: bool) -> (r:
        Option<Emission>)
        ensures
            formatted <==> r is Some,
            formatted ==> emits(r->0, self.domain(), *record, old(formatter)@),
            final(formatter)@ == Seq::<u8>::empty(),
    {
        let r = if formatted {
            let tag = record_tag(record);
            let message = formatter.print(&self.writer);
            Some(Emission { domain: self.domain, tag, level: record.level.to_host(), message })
        } else {
            None
        };
        formatter.clear();
        r
    }

    /// Logs `record` through `formatter` with the default format: nothing
    /// where the filter stops it, else exactly one emission of the rendered
    /// record, whatever the formatter held before. The buffer is left empty.
    pub fn log(&self, formatter: &mut HilogFormatter, record: &Record) -> (r: Option<Emission>)
        ensures
            !directives_enable(self.directives(), record.target@, record.level) ==> r is None,
            directives_enable(self.directives(), record.target@, record.level) ==> r is Some
                && emits(r->0, self.domain(), *record, rendered(self.format(), *record)),
            final(formatter)@ == Seq::<u8>::empty(),
    {
        formatter.clear();
        if !self.enabled(record.target.as_str(), record.level) {
            return None;
        }
        assert(formatter@ + rendered(self.format(), *record) == rendered(self.format(), *record));
        self.format.write(formatter, record);
        self.finish(formatter, record, true)
    }
}

/// What a builder holds.
pub struct BuilderView {
    pub domain: LogDomain,
    pub directives: Seq<DirectiveView>,
    pub format: DefaultFormat,
    pub built: bool,
}

/// One-shot configuration of a `Logger`.
pub struct Builder {
    filter: FilterBuilder,
    log_domain: LogDomain,
    format: ohfmt::builder::Builder,
    writer: ohfmt::writer::Builder,
    has_directives: bool,
    built: bool,
}

impl View for Builder {
    type V = BuilderView;

    closed spec fn view(&self) -> BuilderView {
        BuilderView {
            domain: self.log_domain,
            directives: builder_directives(self.filter),
            format: self.format.settings(),
            built: self.built,
        }
    }
}

impl Builder {
    /// The parts are unused while the builder is.
    pub closed spec fn wf(&self) -> bool {
        &&& !self.built ==> !builder_consumed(self.filter) && !self.format.is_built()
        &&& self.has_directives == (builder_directives(self.filter).len() > 0)
    }

    pub fn new() -> (r: Builder)
        ensures
            r.wf(),
            r@.domain@ == 0,
            r@.directives == Seq::<DirectiveView>::empty(),
            r@.format == default_settings(),
            !r@.built,
    {
        Builder {
            filter: new_filter_builder(),
            log_domain: LogDomain::new(0),
            format: ohfmt::builder::Builder::new(),
            writer: ohfmt::writer::Builder::new(),
            has_directives: false,
            built: false,
        }
    }

    /// Sets the service domain of the logs.
    pub fn set_domain(&mut self, domain: LogDomain) -> (r: &mut Self)
        ensures
            (*r)@ == (BuilderView { domain, ..old(self)@ }),
            r.wf() == old(self).wf(),
            *final(self) == *final(r),
    {
        self.log_domain = domain;
        self
    }

    /// Adds a directive for `module`, replacing one for the same module.
    pub fn filter_module(&mut self, module: &str, level: LevelFilter) -> (r: &mut Self)
        ensures
            (*r)@ == (BuilderView {
                directives: insert_directive(old(self)@.directives, (Some(module@), level)),
                ..old(self)@
            }),
            old(self).wf() ==> r.wf(),
            *final(self) == *final(r),
    {
        add_directive(&mut self.filter, Some(module), level);
        proof {
            insert_directive_nonempty(old(self)@.directives, (Some(module@), level));
        }
        self.has_directives = true;
        self
    }

    /// Sets the default directive, for all modules.
    pub fn filter_level(&mut self, level: LevelFilter) -> (r: &mut Self)
        ensures
            (*r)@ == (BuilderView {
                directives: insert_directive(old(self)@.directives, (None, level)),
                ..old(self)@
            }),
            old(self).wf() ==> r.wf(),
            *final(self) == *final(r),
    {
        add_directive(&mut self.filter, None, level);
        proof {
            insert_directive_nonempty(old(self)@.directives, (None, level));
        }
        self.has_directives = true;
        self
    }

    /// Adds the directive `module=level`; without a module, the default one.
    pub fn filter(&mut self, module: Option<&str>, level: LevelFilter) -> (r: &mut Self)
        ensures
            (*r)@ == (BuilderView {
                directives: insert_directive(
                    old(self)@.directives,
                    (match module { Some(m) => Some(m@), None => None }, level),
                ),
                ..old(self)@
            }),
            old(self).wf() ==> r.wf(),
            *final(self) == *final(r),
    {
        add_directive(&mut self.filter, module, level);
        proof {
            insert_directive_nonempty(old(self)@.directives, (match module { Some(m) => Some(m@), None => None }, level));
        }
        self.has_directives = true;
        self
    }

    /// Goes back to the default format settings.
    pub fn default_format(&mut self) -> (r: &mut Self)
        ensures
            (*r)@ == (BuilderView { format: default_settings(), ..old(self)@ }),
            old(self).wf() ==> r.wf(),
            *final(self) == *final(r),
    {
        self.format = ohfmt::builder::Builder::new();
        self
    }

    /// Whether to write the level in the default format.
    pub fn format_level(&mut self, write: bool) -> (r: &mut Self)
        ensures
            (*r)@ == (BuilderView {
                format: DefaultFormat { level: write, ..old(self)@.format },
                ..old(self)@
            }),
            r.wf() == old(self).wf(),
            *final(self) == *final(r),
    {
        self.format.format_level = write;
        self
    }

    /// Whether to write the module path in the default format.
    pub fn format_module_path(&mut self, write: bool) -> (r: &mut Self)
        ensures
            (*r)@ == (BuilderView {
                format: DefaultFormat { module: write, ..old(self)@.format },
                ..old(self)@
            }),
            r.wf() == old(self).wf(),
            *final(self) == *final(r),
    {
        self.format.format_module_path = write;
        self
    }

    /// Whether to write the target in the default format.
    pub fn format_target(&mut self, write: bool) -> (r: &mut Self)
        ensures
            (*r)@ == (BuilderView {
                format: DefaultFormat { target: write, ..old(self)@.format },
                ..old(self)@
            }),
            r.wf() == old(self).wf(),
            *final(self) == *final(r),
    {
        self.format.format_target = write;
        self
    }

    /// Spaces that continue each further line of a multi-line message;
    /// `None` writes the message as it is.
    pub fn format_indent(&mut self, indent: Option<usize>) -> (r: &mut Self)
        ensures
            (*r)@ == (BuilderView {
                format: DefaultFormat { indent, ..old(self)@.format },
                ..old(self)@
            }),
            r.wf() == old(self).wf(),
            *final(self) == *final(r),
    {
        self.format.format_indent = indent;
        self
    }

    /// Whether to include a timestamp, and in what precision.
    pub fn format_timestamp(&mut self, timestamp: Option<TimestampPrecision>) -> (r: &mut Self)
        ensures
            (*r)@ == (BuilderView {
                format: DefaultFormat { timestamp, ..old(self)@.format },
                ..old(self)@
            }),
            r.wf() == old(self).wf(),
            *final(self) == *final(r),
    {
        self.format.format_timestamp = timestamp;
        self
    }

    pub fn format_timestamp_secs(&mut self) -> (r: &mut Self)
        ensures
            (*r)@ == (BuilderView {
                format: DefaultFormat { timestamp: Some(TimestampPrecision::Seconds), ..old(self)@.format },
                ..old(self)@
            }),
            r.wf() == old(self).wf(),
            *final(self) == *final(r),
    {
        self.format_timestamp(Some(TimestampPrecision::Seconds))
    }

    pub fn format_timestamp_millis(&mut self) -> (r: &mut Self)
        ensures
            (*r)@ == (BuilderView {
                format: DefaultFormat { timestamp: Some(TimestampPrecision::Millis), ..old(self)@.format },
                ..old(self)@
            }),
            r.wf() == old(self).wf(),
            *final(self) == *final(r),
    {
        self.format_timestamp(Some(TimestampPrecision::Millis))
    }

    pub fn format_timestamp_micros(&mut self) -> (r: &mut Self)
        ensures
            (*r)@ == (BuilderView {
                format: DefaultFormat { timestamp: Some(TimestampPrecision::Micros), ..old(self)@.format },
                ..old(self)@
            }),
            r.wf() == old(self).wf(),
            *final(self) == *final(r),
    {
        self.format_timestamp(Some(TimestampPrecision::Micros))
    }

    pub fn format_timestamp_nanos(&mut self) -> (r: &mut Self)
        ensures
            (*r)@ == (BuilderView {
                format: DefaultFormat { timestamp: Some(TimestampPrecision::Nanos), ..old(self)@.format },
                ..old(self)@
            }),
            r.wf() == old(self).wf(),
            *final(self) == *final(r),
    {
        self.format_timestamp(Some(TimestampPrecision::Nanos))
    }

    /// The bytes written at the end of each record, and before each
    /// indented continuation line.
    pub fn format_suffix(&mut self, suffix: &'static str) -> (r: &mut Self)
        ensures
            (*r)@ == (BuilderView {
                format: DefaultFormat { suffix, ..old(self)@.format },
                ..old(self)@
            }),
            r.wf() == old(self).wf(),
            *final(self) == *final(r),
    {
        self.format.format_suffix = suffix;
        self
    }

    /// Whether `build` has been called.
    pub fn is_built(&self) -> (r: bool)
        ensures
            r == self@.built,
    {
        self.built
    }

    /// Builds the logger; a builder can be built once only. Where no
    /// directive was configured, the filter lets nothing through.
    pub fn build(&mut self) -> (r: Logger)
        requires
            old(self).wf(),
            !old(self)@.built,
        ensures
            final(self)@ == (BuilderView {
                domain: old(self)@.domain,
                directives: Seq::empty(),
                format: default_settings(),
                built: true,
            }),
            final(self).wf(),
            r.domain() == old(self)@.domain,
            r.directives() == sorted_by_name_len(configured_directives(old(self)@.directives)),
            forall|target: Seq<char>, level: Level|
                directives_enable(r.directives(), target, level) == directives_enable(
                    old(self)@.directives,
                    target,
                    level,
                ),
            max_level(r.directives()) == max_level(old(self)@.directives),
            r.format() == old(self)@.format,
    {
        if !self.has_directives {
            add_directive(&mut self.filter, None, LevelFilter::Off);
        }
        let ghost ds = configured_directives(old(self)@.directives);
        assert(builder_directives(self.filter) == ds);
        self.built = true;
        let r = Logger {
            domain: self.log_domain,
            filter: build_filter(&mut self.filter),
            writer: self.writer.build(),
            format: self.format.build(),
        };
        self.has_directives = false;
        proof {
            sorting_keeps_decisions(ds, Seq::empty(), Level::Error);
            assert forall|target: Seq<char>, level: Level|
                directives_enable(r.directives(), target, level) == directives_enable(
                    old(self)@.directives,
                    target,
                    level,
                ) by {
                sorting_keeps_decisions(ds, target, level);
                if old(self)@.directives.len() == 0 {
                    assert(ds == seq![(None::<Seq<char>>, LevelFilter::Off)]);
                    assert(ds.len() == 1 && ds.last() == (None::<Seq<char>>, LevelFilter::Off));
                    assert(ds.drop_last() == Seq::<DirectiveView>::empty());
                    assert(deciding(ds.drop_last(), target) == None::<DirectiveView>);
                    assert(deciding(ds, target) == Some((None::<Seq<char>>, LevelFilter::Off)));
                }
            }
            if old(self)@.directives.len() == 0 {
                assert(ds == seq![(None::<Seq<char>>, LevelFilter::Off)]);
                assert(ds.len() == 1 && ds.last() == (None::<Seq<char>>, LevelFilter::Off));
                assert(ds.drop_last() == Seq::<DirectiveView>::empty());
                assert(max_level(ds.drop_last()) == LevelFilter::Off);
                assert(max_level(ds) == LevelFilter::Off);
            }
        }
        r
    }
}

impl Default for Builder {
    fn default() -> (r: Self)
        ensures
            r.wf(),
            r@.domain@ == 0,
            r@.directives == Seq::<DirectiveView>::empty(),
            r@.format == default_settings(),
            !r@.built,
    {
        Builder::new()
    }
}

} // verus!
