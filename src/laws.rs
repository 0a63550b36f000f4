//! Properties that relate the parts of the library.
use vstd::prelude::*;
use vstd::utf8::encode_utf8;
use crate::filter::{
    applies, configured_directives, deciding, name_len, directives_enable, insert_by_name_len, max_level, sorted_by_name_len,
    DirectiveView,
};
use crate::level::{filter_rank, padded_label, spaces, Level, LevelFilter};
use crate::ohfmt::builder::{body, header, header_values, indented, joined, rendered, DefaultFormat};
use crate::Record;

verus! {

/// The level hint of a filter is the most verbose level among its
/// directives: every directive's level is at most the hint, and the hint is
/// one of them, or `Off` where there are none.
pub proof fn max_level_is_greatest(ds: Seq<DirectiveView>)
    ensures
        forall|i: int| 0 <= i < ds.len() ==> filter_rank(#[trigger] ds[i].1) <= filter_rank(max_level(ds)),
        ds.len() == 0 ==> max_level(ds) == LevelFilter::Off,
        ds.len() > 0 ==> exists|i: int| 0 <= i < ds.len() && ds[i].1 == max_level(ds),
    decreases ds.len(),
{
    if ds.len() > 0 {
        let rest = ds.drop_last();
        max_level_is_greatest(rest);
        assert forall|i: int| 0 <= i < ds.len() implies filter_rank(#[trigger] ds[i].1) <= filter_rank(
            max_level(ds),
        ) by {
            if i < ds.len() - 1 {
                assert(ds[i] == rest[i]);
            }
        }
        if filter_rank(max_level(rest)) < filter_rank(ds.last().1) {
            assert(ds[ds.len() - 1].1 == max_level(ds));
        } else if rest.len() == 0 {
            assert(ds[0].1 == max_level(ds));
        } else {
            let i = choose|i: int| 0 <= i < rest.len() && rest[i].1 == max_level(rest);
            assert(ds[i] == rest[i]);
            assert(ds[i].1 == max_level(ds));
        }
    }
}

proof fn deciding_insert(d: DirectiveView, s: Seq<DirectiveView>, t: Seq<char>)
    ensures
        deciding(insert_by_name_len(d, s), t) == deciding(s.push(d), t),
    decreases s.len(),
{
    if s.len() > 0 && !(name_len(s.last()) <= name_len(d)) {
        let s0 = s.drop_last();
        let l = s.last();
        deciding_insert(d, s0, t);
        let i0 = insert_by_name_len(d, s0);
        assert(i0.push(l).drop_last() == i0);
        assert(s0.push(d).drop_last() == s0);
        assert(s0.push(l).drop_last() == s0);
        assert(s0.push(l) == s);
        assert(s.push(d).drop_last() == s);
        assert(insert_by_name_len(d, s) == i0.push(l));
        let p0 = deciding(s0, t);
        let pd = deciding(s0.push(d), t);
        let pl = deciding(s, t);
        assert(pd == (if applies(d, t) && (p0 is None || name_len(p0->0) <= name_len(d)) {
            Some(d)
        } else {
            p0
        }));
        assert(pl == (if applies(l, t) && (p0 is None || name_len(p0->0) <= name_len(l)) {
            Some(l)
        } else {
            p0
        }));
        assert(deciding(i0.push(l), t) == (if applies(l, t) && (pd is None || name_len(pd->0) <= name_len(l)) {
            Some(l)
        } else {
            pd
        }));
        assert(deciding(s.push(d), t) == (if applies(d, t) && (pl is None || name_len(pl->0) <= name_len(d)) {
            Some(d)
        } else {
            pl
        }));
    } else if s.len() == 0 {
        assert(s.push(d) == seq![d]);
    }
}

proof fn max_level_insert(d: DirectiveView, s: Seq<DirectiveView>)
    ensures
        max_level(insert_by_name_len(d, s)) == max_level(s.push(d)),
    decreases s.len(),
{
    if s.len() > 0 && !(name_len(s.last()) <= name_len(d)) {
        let s0 = s.drop_last();
        let l = s.last();
        max_level_insert(d, s0);
        let i0 = insert_by_name_len(d, s0);
        assert(i0.push(l).drop_last() == i0);
        assert(s0.push(d).drop_last() == s0);
        assert(s0.push(l).drop_last() == s0);
        assert(s0.push(l) == s);
        assert(s.push(d).drop_last() == s);
        assert(insert_by_name_len(d, s) == i0.push(l));
        assert(forall|a: LevelFilter, b: LevelFilter| filter_rank(a) == filter_rank(b) ==> a == b);
        let m0 = max_level(s0);
        let md = max_level(s0.push(d));
        let ml = max_level(s);
        assert(md == (if filter_rank(m0) < filter_rank(d.1) { d.1 } else { m0 }));
        assert(ml == (if filter_rank(m0) < filter_rank(l.1) { l.1 } else { m0 }));
        assert(max_level(i0.push(l)) == (if filter_rank(md) < filter_rank(l.1) { l.1 } else { md }));
        assert(max_level(s.push(d)) == (if filter_rank(ml) < filter_rank(d.1) { d.1 } else { ml }));
    } else if s.len() == 0 {
        assert(s.push(d) == seq![d]);
    }
}

/// Sorting directives stably by the byte length of the names changes neither which directive
/// decides for a target nor the level hint.
pub proof fn sorting_keeps_decisions(ds: Seq<DirectiveView>, target: Seq<char>, level: Level)
    ensures
        deciding(sorted_by_name_len(ds), target) == deciding(ds, target),
        directives_enable(sorted_by_name_len(ds), target, level) == directives_enable(ds, target, level),
        max_level(sorted_by_name_len(ds)) == max_level(ds),
    decreases ds.len(),
{
    if ds.len() > 0 {
        let rest = ds.drop_last();
        sorting_keeps_decisions(rest, target, level);
        let sr = sorted_by_name_len(rest);
        deciding_insert(ds.last(), sr, target);
        max_level_insert(ds.last(), sr);
        assert(sr.push(ds.last()).drop_last() == sr);
    }
}

/// The level hint of a built filter is the most verbose configured level,
/// `Off` where nothing is configured.
pub proof fn built_filter_keeps_max_level(ds: Seq<DirectiveView>)
    ensures
        max_level(sorted_by_name_len(configured_directives(ds))) == max_level(ds),
{
    let c = configured_directives(ds);
    sorting_keeps_decisions(c, Seq::empty(), Level::Error);
    if ds.len() == 0 {
        assert(c == seq![(None::<Seq<char>>, LevelFilter::Off)]);
        assert(c.len() == 1 && c.last() == (None::<Seq<char>>, LevelFilter::Off));
        assert(c.drop_last() == Seq::<DirectiveView>::empty());
        assert(max_level(c.drop_last()) == LevelFilter::Off);
        assert(max_level(c) == LevelFilter::Off);
    }
}

/// With every header field on, a record whose module path and target are
/// the same non-empty `m`, at `Info`, with an empty message, renders as
/// `[INFO  m m] ` followed by the suffix.
pub proof fn empty_message_header(f: DefaultFormat, r: Record)
    requires
        f.level && f.module && f.target,
        r.level == Level::Info,
        r.module is Some,
        r.module->0@ == r.target@,
        r.target@.len() > 0,
        r.args@.len() == 0,
    ensures
        rendered(f, r) == seq![91u8, 73u8, 78u8, 70u8, 79u8, 32u8, 32u8] + encode_utf8(r.target@)
            + seq![32u8] + encode_utf8(r.target@) + seq![93u8, 32u8] + encode_utf8(f.suffix@),
{
    let m = encode_utf8(r.target@);
    let vs = header_values(f, r);
    let info = seq![73u8, 78u8, 70u8, 79u8, 32u8];
    assert(spaces(1) == seq![32u8]);
    assert(padded_label(Level::Info) == info);
    assert(encode_utf8(r.module->0@) == m);
    assert(vs == seq![info] + seq![m] + seq![m]);
    assert(vs == seq![info, m, m]);
    assert(vs.drop_last().drop_last() == seq![info]);
    assert(vs.drop_last() == seq![info, m]);
    assert(joined(seq![info]) == info);
    assert(joined(seq![info, m]) == info + seq![32u8] + m);
    assert(joined(vs) == info + seq![32u8] + m + seq![32u8] + m);
    assert(encode_utf8(r.args@) == Seq::<u8>::empty());
    assert(body(f, r) == Seq::<u8>::empty());
    assert(header(vs) == seq![91u8] + (info + seq![32u8] + m + seq![32u8] + m) + seq![93u8, 32u8]);
}

/// With an indent of `n`, the message `a\nb\nc` is written as `a`, suffix,
/// `n` spaces, `b`, suffix, `n` spaces, `c`.
pub proof fn indent_continues_lines(f: DefaultFormat, r: Record, n: usize)
    requires
        f.indent == Some(n),
        encode_utf8(r.args@) == seq![97u8, 10u8, 98u8, 10u8, 99u8],
    ensures
        body(f, r) == seq![97u8] + encode_utf8(f.suffix@) + spaces(n as nat) + seq![98u8]
            + encode_utf8(f.suffix@) + spaces(n as nat) + seq![99u8],
{
    let sep = encode_utf8(f.suffix@) + spaces(n as nat);
    let s = seq![97u8, 10u8, 98u8, 10u8, 99u8];
    let s1 = seq![97u8];
    let s2 = seq![97u8, 10u8];
    let s3 = seq![97u8, 10u8, 98u8];
    let s4 = seq![97u8, 10u8, 98u8, 10u8];
    assert(s1.drop_last() == Seq::<u8>::empty());
    assert(s2.drop_last() == s1);
    assert(s3.drop_last() == s2);
    assert(s4.drop_last() == s3);
    assert(s.drop_last() == s4);
    assert(indented(Seq::<u8>::empty(), sep) == Seq::<u8>::empty());
    assert(indented(s1, sep) == s1);
    assert(indented(s2, sep) == s1 + sep);
    assert(indented(s3, sep) == s1 + sep + seq![98u8]);
    assert(indented(s4, sep) == s1 + sep + seq![98u8] + sep);
    assert(indented(s, sep) == s1 + sep + seq![98u8] + sep + seq![99u8]);
    assert(s1 + sep + seq![98u8] + sep + seq![99u8] == seq![97u8] + encode_utf8(f.suffix@) + spaces(
        n as nat,
    ) + seq![98u8] + encode_utf8(f.suffix@) + spaces(n as nat) + seq![99u8]);
}

} // verus!
