use vstd::prelude::*;

verus! {

/// Severity of a record, from most to least severe.
#[derive(Copy, Clone, Debug, PartialEq, Eq, Structural)]
pub enum Level {
    Error,
    Warn,
    Info,
    Debug,
    Trace,
}

/// Most verbose level a directive lets through; `Off` lets nothing through.
#[derive(Copy, Clone, Debug, PartialEq, Eq, Structural)]
pub enum LevelFilter {
    Off,
    Error,
    Warn,
    Info,
    Debug,
    Trace,
}

/// Severity ladder of the host logging service.
#[derive(Copy, Clone, Debug, PartialEq, Eq, Structural)]
pub enum HostLevel {
    Debug,
    Info,
    Warn,
    Error,
    Fatal,
}

/// Rank of a level: the more verbose, the higher.
pub open spec fn level_rank(l: Level) -> nat {
    match l {
        Level::Error => 1,
        Level::Warn => 2,
        Level::Info => 3,
        Level::Debug => 4,
        Level::Trace => 5,
    }
}

/// Rank of a level filter, on the same scale as `level_rank`.
pub open spec fn filter_rank(f: LevelFilter) -> nat {
    match f {
        LevelFilter::Off => 0,
        LevelFilter::Error => 1,
        LevelFilter::Warn => 2,
        LevelFilter::Info => 3,
        LevelFilter::Debug => 4,
        LevelFilter::Trace => 5,
    }
}

/// The host level a record level is emitted at; the host has no trace level.
pub open spec fn host_level_of(l: Level) -> HostLevel {
    match l {
        Level::Error => HostLevel::Error,
        Level::Warn => HostLevel::Warn,
        Level::Info => HostLevel::Info,
        Level::Debug => HostLevel::Debug,
        Level::Trace => HostLevel::Debug,
    }
}

/// The name of a level in upper case ASCII.
pub open spec fn level_label(l: Level) -> Seq<u8> {
    match l {
        Level::Error => seq![69u8, 82u8, 82u8, 79u8, 82u8],
        Level::Warn => seq![87u8, 65u8, 82u8, 78u8],
        Level::Info => seq![73u8, 78u8, 70u8, 79u8],
        Level::Debug => seq![68u8, 69u8, 66u8, 85u8, 71u8],
        Level::Trace => seq![84u8, 82u8, 65u8, 67u8, 69u8],
    }
}

/// `n` space bytes.
pub open spec fn spaces(n: nat) -> Seq<u8> {
    Seq::new(n, |i: int| 32u8)
}

/// A level name left-aligned in a field of five bytes.
pub open spec fn padded_label(l: Level) -> Seq<u8> {
    level_label(l) + spaces((5 - level_label(l).len()) as nat)
}

impl Level {
    /// The host level a record at this level is emitted at.
    pub fn to_host(self) -> (r: HostLevel)
        ensures
            r == host_level_of(self),
    {
        match self {
            Level::Error => HostLevel::Error,
            Level::Warn => HostLevel::Warn,
            Level::Info => HostLevel::Info,
            Level::Debug => HostLevel::Debug,
            Level::Trace => HostLevel::Debug,
        }
    }
}

/// Relies on `log::Level::as_str`, which reads the level's name out of the
/// table `["OFF", "ERROR", "WARN", "INFO", "DEBUG", "TRACE"]`.
#[verifier::external_body]
pub(crate) fn level_name(l: Level) -> (r: &'static [u8])
    ensures
        r@ == level_label(l),
{
    let level = match l {
        Level::Error => log::Level::Error,
        Level::Warn => log::Level::Warn,
        Level::Info => log::Level::Info,
        Level::Debug => log::Level::Debug,
        Level::Trace => log::Level::Trace,
    };
    level.as_str().as_bytes()
}

} // verus!
