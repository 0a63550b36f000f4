//! The default format and its configuration.
use vstd::prelude::*;
use vstd::utf8::encode_utf8;
use crate::level::{level_name, padded_label, spaces, Level};
use crate::ohfmt::{HilogFormatter, TimestampPrecision};
use crate::Record;

verus! {

/// Values written between brackets at the start of a record, in order.
pub open spec fn header_values(f: DefaultFormat, r: Record) -> Seq<Seq<u8>> {
    (if f.level { seq![padded_label(r.level)] } else { Seq::empty() })
    + (if f.module && r.module is Some {
        seq![encode_utf8(r.module->0@)]
    } else {
        Seq::empty()
    })
    + (if f.target && r.target@.len() > 0 { seq![encode_utf8(r.target@)] } else { Seq::empty() })
}

/// Values separated by single spaces.
pub open spec fn joined(vs: Seq<Seq<u8>>) -> Seq<u8>
    decreases vs.len(),
{
    if vs.len() == 0 {
        Seq::empty()
    } else if vs.len() == 1 {
        vs[0]
    } else {
        joined(vs.drop_last()) + seq![32u8] + vs.last()
    }
}

/// The header as written before it is closed: `[` and the joined values.
pub open spec fn open_header(vs: Seq<Seq<u8>>) -> Seq<u8> {
    if vs.len() == 0 {
        Seq::empty()
    } else {
        seq![91u8] + joined(vs)
    }
}

/// The header: `[v1 v2 ...] `, or nothing where there are no values.
pub open spec fn header(vs: Seq<Seq<u8>>) -> Seq<u8> {
    if vs.len() == 0 {
        Seq::empty()
    } else {
        open_header(vs) + seq![93u8, 32u8]
    }
}

/// `body` with each newline byte replaced by `sep`.
pub open spec fn indented(body: Seq<u8>, sep: Seq<u8>) -> Seq<u8>
    decreases body.len(),
{
    if body.len() == 0 {
        body
    } else {
        indented(body.drop_last(), sep) + (if body.last() == 10u8 { sep } else { seq![body.last()] })
    }
}

/// The record's message as written by the default format.
pub open spec fn body(f: DefaultFormat, r: Record) -> Seq<u8> {
    match f.indent {
        None => encode_utf8(r.args@),
        Some(n) => indented(encode_utf8(r.args@), encode_utf8(f.suffix@) + spaces(n as nat)),
    }
}

/// Everything the default format writes for a record.
pub open spec fn rendered(f: DefaultFormat, r: Record) -> Seq<u8> {
    header(header_values(f, r)) + body(f, r) + encode_utf8(f.suffix@)
}

proof fn lemma_open_header_push(vs: Seq<Seq<u8>>, v: Seq<u8>)
    ensures
        open_header(vs.push(v)) == open_header(vs) + (if vs.len() == 0 {
            seq![91u8]
        } else {
            seq![32u8]
        }) + v,
{
    assert(vs.push(v).drop_last() == vs);
    if vs.len() == 0 {
        assert(vs.push(v) == seq![v]);
        assert(seq![91u8] + v == Seq::<u8>::empty() + seq![91u8] + v);
    } else {
        assert(seq![91u8] + (joined(vs) + seq![32u8] + v) == seq![91u8] + joined(vs) + seq![32u8] + v);
    }
}

/// Settings of the default format.
#[derive(Copy, Clone)]
pub struct DefaultFormat {
    pub timestamp: Option<TimestampPrecision>,
    pub module: bool,
    pub target: bool,
    pub level: bool,
    pub indent: Option<usize>,
    pub suffix: &'static str,
}

impl DefaultFormat {
    /// Renders `record` onto the end of `buf`.
    pub fn write(&self, buf: &mut HilogFormatter, record: &Record)
        ensures
            final(buf)@ == old(buf)@ + rendered(*self, *record),
    {
        let ghost start = buf@;
        let mut written = false;
        let ghost vs: Seq<Seq<u8>> = Seq::empty();
        self.write_timestamp(buf);

        self.write_level(&mut written, buf, record);
        proof {
            if self.level {
                lemma_open_header_push(vs, padded_label(record.level));
                vs = vs.push(padded_label(record.level));
            }
        }
        assert(buf@ == start + open_header(vs) && written == (vs.len() > 0));

        self.write_module_path(&mut written, buf, record);
        proof {
            if self.module && record.module is Some {
                let v = encode_utf8(record.module->0@);
                lemma_open_header_push(vs, v);
                vs = vs.push(v);
            }
        }
        assert(buf@ == start + open_header(vs) && written == (vs.len() > 0));

        self.write_target(&mut written, buf, record);
        proof {
            if self.target && record.target@.len() > 0 {
                let v = encode_utf8(record.target@);
                lemma_open_header_push(vs, v);
                vs = vs.push(v);
            }
        }
        assert(buf@ == start + open_header(vs) && written == (vs.len() > 0));
        assert(vs == header_values(*self, *record));

        self.finish_header(written, buf);
        assert(buf@ == start + header(vs));
        self.write_args(buf, record);
        buf.write(self.suffix.as_bytes());
    }

    /// Highlighting of header punctuation; the host shows plain text.
    fn subtle_style(&self, text: u8) -> (r: u8)
        ensures
            r == text,
    {
        text
    }

    /// Writes one header value, opening the header on the first one.
    fn write_header_value(&self, written: &mut bool, buf: &mut HilogFormatter, value: &[u8])
        ensures
            final(buf)@ == old(buf)@ + (if *old(written) { seq![32u8] } else { seq![91u8] }) + value@,
            *final(written),
    {
        if !*written {
            *written = true;
            let open_brace = self.subtle_style(91u8);
            buf.push(open_brace);
        } else {
            buf.push(32u8);
        }
        buf.write(value);
    }

    fn write_level(&self, written: &mut bool, buf: &mut HilogFormatter, record: &Record)
        ensures
            self.level ==> final(buf)@ == old(buf)@ + (if *old(written) {
                seq![32u8]
            } else {
                seq![91u8]
            }) + padded_label(record.level),
            !self.level ==> final(buf)@ == old(buf)@,
            *final(written) == (*old(written) || self.level),
    {
        if !self.level {
            return;
        }
        let name = level_name(record.level);
        let mut label: Vec<u8> = Vec::new();
        let mut i: usize = 0;
        while i < name.len()
            invariant
                i <= name@.len(),
                label@ == name@.subrange(0, i as int),
            decreases name@.len() - i,
        {
            label.push(name[i]);
            i += 1;
            assert(label@ == name@.subrange(0, i as int));
        }
        assert(name@.subrange(0, name@.len() as int) == name@);
        while label.len() < 5
            invariant
                name@.len() <= 5,
                name@.len() <= label@.len() <= 5,
                label@ == name@ + spaces((label@.len() - name@.len()) as nat),
            decreases 5 - label@.len(),
        {
            label.push(32u8);
            assert(label@ == name@ + spaces((label@.len() - name@.len()) as nat));
        }
        self.write_header_value(written, buf, label.as_slice());
    }

    /// The timestamp slot: no clock is read, so nothing is written.
    fn write_timestamp(&self, buf: &mut HilogFormatter)
        ensures
            final(buf)@ == old(buf)@,
    {
    }

    fn write_module_path(&self, written: &mut bool, buf: &mut HilogFormatter, record: &Record)
        ensures
            (self.module && record.module is Some) ==> final(buf)@ == old(buf)@ + (if *old(
                written,
            ) {
                seq![32u8]
            } else {
                seq![91u8]
            }) + encode_utf8(record.module->0@),
            !(self.module && record.module is Some) ==> final(buf)@ == old(buf)@,
            *final(written) == (*old(written) || (self.module && record.module is Some)),
    {
        if !self.module {
            return;
        }
        match &record.module {
            Some(module) => self.write_header_value(written, buf, module.as_str().as_bytes()),
            None => {},
        }
    }

    fn write_target(&self, written: &mut bool, buf: &mut HilogFormatter, record: &Record)
        ensures
            (self.target && record.target@.len() > 0) ==> final(buf)@ == old(buf)@ + (if *old(
                written,
            ) {
                seq![32u8]
            } else {
                seq![91u8]
            }) + encode_utf8(record.target@),
            !(self.target && record.target@.len() > 0) ==> final(buf)@ == old(buf)@,
            *final(written) == (*old(written) || (self.target && record.target@.len() > 0)),
    {
        if !self.target {
            return;
        }
        let target = record.target.as_str();
        if target.is_empty() {
            return;
        }
        self.write_header_value(written, buf, target.as_bytes());
    }

    fn finish_header(&self, written: bool, buf: &mut HilogFormatter)
        ensures
            written ==> final(buf)@ == old(buf)@ + seq![93u8, 32u8],
            !written ==> final(buf)@ == old(buf)@,
    {
        if written {
            let close_brace = self.subtle_style(93u8);
            buf.push(close_brace);
            buf.push(32u8);
        }
    }

    /// Writes the record's message, indenting continuation lines where
    /// an indent is set.
    pub fn write_args(&self, buf: &mut HilogFormatter, record: &Record)
        ensures
            final(buf)@ == old(buf)@ + body(*self, *record),
    {
        let bytes = record.args.as_str().as_bytes();
        match self.indent {
            None => {
                buf.write(bytes);
            },
            Some(indent_count) => {
                let ghost sep = encode_utf8(self.suffix@) + spaces(indent_count as nat);
                let ghost start = buf@;
                let suffix = self.suffix.as_bytes();
                let mut i: usize = 0;
                while i < bytes.len()
                    invariant
                        i <= bytes@.len(),
                        suffix@ == encode_utf8(self.suffix@),
                        sep == encode_utf8(self.suffix@) + spaces(indent_count as nat),
                        buf@ == start + indented(bytes@.subrange(0, i as int), sep),
                    decreases bytes@.len() - i,
                {
                    assert(bytes@.subrange(0, i + 1).drop_last() == bytes@.subrange(0, i as int));
                    if bytes[i] == 10u8 {
                        buf.write(suffix);
                        write_spaces(buf, indent_count);
                    } else {
                        buf.push(bytes[i]);
                    }
                    i += 1;
                }
                assert(bytes@.subrange(0, bytes@.len() as int) == bytes@);
            },
        }
    }
}

/// Appends `n` spaces.
fn write_spaces(buf: &mut HilogFormatter, n: usize)
    ensures
        final(buf)@ == old(buf)@ + spaces(n as nat),
{
    let mut i: usize = 0;
    while i < n
        invariant
            i <= n,
            buf@ == old(buf)@ + spaces(i as nat),
        decreases n - i,
    {
        buf.push(32u8);
        i += 1;
        assert(spaces(i as nat) == spaces((i - 1) as nat).push(32u8));
    }
}

/// Configuration of the default format.
pub struct Builder {
    pub(crate) format_timestamp: Option<TimestampPrecision>,
    pub(crate) format_module_path: bool,
    pub(crate) format_target: bool,
    pub(crate) format_level: bool,
    pub(crate) format_indent: Option<usize>,
    pub(crate) format_suffix: &'static str,
    pub(crate) built: bool,
}

/// The settings a fresh builder holds.
pub open spec fn default_settings() -> DefaultFormat {
    DefaultFormat {
        timestamp: Some(TimestampPrecision::Seconds),
        module: false,
        target: true,
        level: true,
        indent: Some(4),
        suffix: "\n",
    }
}

impl Builder {
    /// The settings held.
    pub(crate) open spec fn settings(&self) -> DefaultFormat {
        DefaultFormat {
            timestamp: self.format_timestamp,
            module: self.format_module_path,
            target: self.format_target,
            level: self.format_level,
            indent: self.format_indent,
            suffix: self.format_suffix,
        }
    }

    pub(crate) open spec fn is_built(&self) -> bool {
        self.built
    }

    /// Turns the settings into the format; a builder is used once, and is
    /// left consumed with the default settings.
    pub(crate) fn build(&mut self) -> (r: DefaultFormat)
        requires
            !old(self).is_built(),
        ensures
            r == old(self).settings(),
            final(self).is_built(),
            final(self).settings() == default_settings(),
    {
        let built = DefaultFormat {
            timestamp: self.format_timestamp,
            module: self.format_module_path,
            target: self.format_target,
            level: self.format_level,
            indent: self.format_indent,
            suffix: self.format_suffix,
        };
        *self = Builder::new();
        self.built = true;
        built
    }

    /// A fresh builder with the default settings.
    pub(crate) fn new() -> (r: Self)
        ensures
            r.settings() == default_settings(),
            !r.is_built(),
    {
        Builder {
            format_timestamp: Some(TimestampPrecision::Seconds),
            format_module_path: false,
            format_target: true,
            format_level: true,
            format_indent: Some(4),
            format_suffix: "\n",
            built: false,
        }
    }
}

} // verus!
