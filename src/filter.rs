//! Directive filtering, delegated to `env_filter`.
//!
//! A directive is an optional target prefix and a level filter. A builder
//! holds its directives in the order in which their names were first
//! inserted; a built filter holds them sorted stably by the byte length of
//! their names.
use vstd::prelude::*;
use vstd::utf8::encode_utf8;
use env_filter::Builder as FilterBuilder;
use crate::level::{level_rank, filter_rank, Level, LevelFilter};

verus! {

/// A directive: an optional target prefix and the most verbose level allowed.
pub type DirectiveView = (Option<Seq<char>>, LevelFilter);

#[verifier::external_type_specification]
#[verifier::external_body]
pub struct ExFilterBuilder(FilterBuilder);

#[verifier::external_type_specification]
#[verifier::external_body]
pub struct ExFilter(env_filter::Filter);

/// The directives held by a filter builder, in order of first insertion.
pub uninterp spec fn builder_directives(b: FilterBuilder) -> Seq<DirectiveView>;

/// Whether a filter builder has been consumed by `build`.
pub uninterp spec fn builder_consumed(b: FilterBuilder) -> bool;

/// The directives of a built filter, in the order in which it stores them.
pub uninterp spec fn filter_directives(f: env_filter::Filter) -> Seq<DirectiveView>;

/// Index of the directive named `name`, if any.
pub open spec fn directive_index(ds: Seq<DirectiveView>, name: Option<Seq<char>>) -> Option<int>
    decreases ds.len(),
{
    if ds.len() == 0 {
        None
    } else if ds.last().0 == name {
        Some(ds.len() - 1)
    } else {
        directive_index(ds.drop_last(), name)
    }
}

/// Adding a directive replaces the one with the same name in place, or
/// appends it.
pub open spec fn insert_directive(ds: Seq<DirectiveView>, d: DirectiveView) -> Seq<DirectiveView> {
    match directive_index(ds, d.0) {
        Some(i) => ds.update(i, d),
        None => ds.push(d),
    }
}

/// An index found by `directive_index` is in range.
proof fn directive_index_in_range(ds: Seq<DirectiveView>, name: Option<Seq<char>>)
    ensures
        directive_index(ds, name) is Some ==> 0 <= directive_index(ds, name)->0 < ds.len(),
    decreases ds.len(),
{
    if ds.len() > 0 {
        directive_index_in_range(ds.drop_last(), name);
    }
}

/// A builder holds a directive once one has been added.
pub proof fn insert_directive_nonempty(ds: Seq<DirectiveView>, d: DirectiveView)
    ensures
        insert_directive(ds, d).len() > 0,
{
    directive_index_in_range(ds, d.0);
}

/// A directive list as the library configures it: where nothing is
/// configured, a lone default at `Off`, so that nothing passes.
pub open spec fn configured_directives(ds: Seq<DirectiveView>) -> Seq<DirectiveView> {
    if ds.len() == 0 {
        seq![(None, LevelFilter::Off)]
    } else {
        ds
    }
}

/// The directives of the filter that a builder holding `ds` builds: a lone
/// default at `Error` where none were given.
pub open spec fn built_directives(ds: Seq<DirectiveView>) -> Seq<DirectiveView> {
    if ds.len() == 0 {
        seq![(None, LevelFilter::Error)]
    } else {
        ds
    }
}

/// `s` with `d` placed after every directive whose name is not longer than
/// `d`'s and before the longer ones.
pub open spec fn insert_by_name_len(d: DirectiveView, s: Seq<DirectiveView>) -> Seq<DirectiveView>
    decreases s.len(),
{
    if s.len() == 0 {
        seq![d]
    } else if name_len(s.last()) <= name_len(d) {
        s.push(d)
    } else {
        insert_by_name_len(d, s.drop_last()).push(s.last())
    }
}

/// `ds` sorted stably by the byte length of the names: directives with names of equal length
/// keep their order.
pub open spec fn sorted_by_name_len(ds: Seq<DirectiveView>) -> Seq<DirectiveView>
    decreases ds.len(),
{
    if ds.len() == 0 {
        ds
    } else {
        insert_by_name_len(ds.last(), sorted_by_name_len(ds.drop_last()))
    }
}

/// Length in UTF-8 bytes of a directive's name; the default directive counts
/// as empty.
pub open spec fn name_len(d: DirectiveView) -> nat {
    match d.0 {
        Some(n) => encode_utf8(n).len(),
        None => 0,
    }
}

/// Whether a directive applies to `target`.
pub open spec fn applies(d: DirectiveView, target: Seq<char>) -> bool {
    match d.0 {
        Some(n) => n.is_prefix_of(target),
        None => true,
    }
}

/// The directive that decides for `target`: the applying one with the
/// longest name in bytes, the later one among equally long names.
pub open spec fn deciding(ds: Seq<DirectiveView>, target: Seq<char>) -> Option<DirectiveView>
    decreases ds.len(),
{
    if ds.len() == 0 {
        None
    } else {
        let prev = deciding(ds.drop_last(), target);
        let d = ds.last();
        if applies(d, target) && (prev is None || name_len(prev->0) <= name_len(d)) {
            Some(d)
        } else {
            prev
        }
    }
}

/// Whether directives `ds` let a record at `level` for `target` through.
pub open spec fn directives_enable(ds: Seq<DirectiveView>, target: Seq<char>, level: Level) -> bool {
    match deciding(ds, target) {
        Some(d) => level_rank(level) <= filter_rank(d.1),
        None => false,
    }
}

/// The most verbose level among `ds`, `Off` where there is none.
pub open spec fn max_level(ds: Seq<DirectiveView>) -> LevelFilter
    decreases ds.len(),
{
    if ds.len() == 0 {
        LevelFilter::Off
    } else {
        let rest = max_level(ds.drop_last());
        if filter_rank(rest) < filter_rank(ds.last().1) {
            ds.last().1
        } else {
            rest
        }
    }
}

/// Relies on `env_filter::Builder::new`: an empty builder, not yet consumed.
#[verifier::external_body]
pub(crate) fn new_filter_builder() -> (r: FilterBuilder)
    ensures
        builder_directives(r) == Seq::<DirectiveView>::empty(),
        !builder_consumed(r),
{
    env_filter::Builder::new()
}

/// Relies on `env_filter::Builder::filter`: inserts the directive
/// `module=level`, replacing one of the same name in place.
#[verifier::external_body]
pub(crate) fn add_directive(b: &mut FilterBuilder, module: Option<&str>, level: LevelFilter)
    ensures
        builder_directives(*final(b)) == insert_directive(
            builder_directives(*old(b)),
            (match module { Some(m) => Some(m@), None => None }, level),
        ),
        builder_consumed(*final(b)) == builder_consumed(*old(b)),
{
    let level = match level {
        LevelFilter::Off => log::LevelFilter::Off,
        LevelFilter::Error => log::LevelFilter::Error,
        LevelFilter::Warn => log::LevelFilter::Warn,
        LevelFilter::Info => log::LevelFilter::Info,
        LevelFilter::Debug => log::LevelFilter::Debug,
        LevelFilter::Trace => log::LevelFilter::Trace,
    };
    b.filter(module, level);
}

/// Relies on `env_filter::Builder::build`: it panics on a consumed builder;
/// otherwise it marks the builder consumed, takes its directives (or a lone
/// default at `Error` where there are none) and stores them sorted stably by the
/// byte length of the names.
#[verifier::external_body]
pub(crate) fn build_filter(b: &mut FilterBuilder) -> (r: env_filter::Filter)
    requires
        !builder_consumed(*old(b)),
    ensures
        filter_directives(r) == sorted_by_name_len(built_directives(builder_directives(*old(b)))),
        builder_consumed(*final(b)),
        builder_directives(*final(b)) == Seq::<DirectiveView>::empty(),
{
    b.build()
}

/// Relies on `env_filter::Filter::enabled`: scans the directives from the
/// longest name down and lets the record through iff the first that applies to
/// the target allows its level.
#[verifier::external_body]
pub(crate) fn filter_enabled(f: &env_filter::Filter, target: &str, level: Level) -> (r: bool)
    ensures
        r == directives_enable(filter_directives(*f), target@, level),
{
    let level = match level {
        Level::Error => log::Level::Error,
        Level::Warn => log::Level::Warn,
        Level::Info => log::Level::Info,
        Level::Debug => log::Level::Debug,
        Level::Trace => log::Level::Trace,
    };
    f.enabled(&log::Metadata::builder().level(level).target(target).build())
}

/// Relies on `env_filter::Filter::filter`: the maximum level over the
/// directives, `Off` where there are none.
#[verifier::external_body]
pub(crate) fn filter_max_level(f: &env_filter::Filter) -> (r: LevelFilter)
    ensures
        r == max_level(filter_directives(*f)),
{
    match f.filter() {
        log::LevelFilter::Off => LevelFilter::Off,
        log::LevelFilter::Error => LevelFilter::Error,
        log::LevelFilter::Warn => LevelFilter::Warn,
        log::LevelFilter::Info => LevelFilter::Info,
        log::LevelFilter::Debug => LevelFilter::Debug,
        log::LevelFilter::Trace => LevelFilter::Trace,
    }
}

} // verus!
