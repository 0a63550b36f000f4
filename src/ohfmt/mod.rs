//! Rendering of records into a reusable byte buffer.
use vstd::prelude::*;

pub mod builder;
pub mod writer;

verus! {

/// Formatting precision of timestamps.
///
/// Seconds give precision of full seconds, milliseconds give thousandths of a
/// second (3 decimal digits), microseconds millionths (6 digits) and
/// nanoseconds billionths (9 digits).
#[derive(Copy, Clone, Debug, PartialEq, Eq, Structural)]
pub enum TimestampPrecision {
    Seconds,
    Millis,
    Micros,
    Nanos,
}

/// The default timestamp precision is seconds.
impl Default for TimestampPrecision {
    fn default() -> (r: Self)
        ensures
            r == TimestampPrecision::Seconds,
    {
        TimestampPrecision::Seconds
    }
}

/// A growable byte buffer that keeps its capacity when cleared.
pub struct Buffer(Vec<u8>);

impl View for Buffer {
    type V = Seq<u8>;

    closed spec fn view(&self) -> Seq<u8> {
        self.0@
    }
}

impl Buffer {
    pub fn new() -> (r: Buffer)
        ensures
            r@ == Seq::<u8>::empty(),
    {
        Buffer(Vec::new())
    }

    pub fn clear(&mut self)
        ensures
            final(self)@ == Seq::<u8>::empty(),
    {
        self.0.clear();
    }

    /// Appends `buf`; returns how many bytes were taken, always all of them.
    pub fn write(&mut self, buf: &[u8]) -> (r: usize)
        ensures
            final(self)@ == old(self)@ + buf@,
            r == buf@.len(),
    {
        let mut i: usize = 0;
        while i < buf.len()
            invariant
                i <= buf@.len(),
                self@ == old(self)@ + buf@.subrange(0, i as int),
            decreases buf@.len() - i,
        {
            self.0.push(buf[i]);
            i += 1;
            assert(buf@.subrange(0, i as int) == buf@.subrange(0, i - 1) + seq![buf@[i - 1]]);
        }
        assert(buf@.subrange(0, buf@.len() as int) == buf@);
        buf.len()
    }

    /// Appends one byte.
    pub fn push(&mut self, b: u8)
        ensures
            final(self)@ == old(self)@.push(b),
    {
        self.0.push(b);
    }

    /// Nothing is held back, so there is nothing to flush.
    pub fn flush(&mut self)
        ensures
            final(self)@ == old(self)@,
    {
    }

    pub fn as_bytes(&self) -> (r: &[u8])
        ensures
            r@ == self@,
    {
        self.0.as_slice()
    }
}

/// Exclusive writer into one buffer for the duration of a record.
pub struct HilogFormatter {
    buf: Buffer,
}

impl View for HilogFormatter {
    type V = Seq<u8>;

    closed spec fn view(&self) -> Seq<u8> {
        self.buf@
    }
}

impl HilogFormatter {
    /// A formatter over a fresh buffer handed out by `writer`.
    pub fn new(writer: &writer::HilogWriter) -> (r: Self)
        ensures
            r@ == Seq::<u8>::empty(),
    {
        HilogFormatter { buf: writer.buffer() }
    }

    pub fn clear(&mut self)
        ensures
            final(self)@ == Seq::<u8>::empty(),
    {
        self.buf.clear();
    }

    /// Appends `buf` to the record being rendered.
    pub fn write(&mut self, buf: &[u8]) -> (r: usize)
        ensures
            final(self)@ == old(self)@ + buf@,
            r == buf@.len(),
    {
        self.buf.write(buf)
    }

    pub(crate) fn push(&mut self, b: u8)
        ensures
            final(self)@ == old(self)@.push(b),
    {
        self.buf.push(b);
    }

    pub fn flush(&mut self)
        ensures
            final(self)@ == old(self)@,
    {
        self.buf.flush();
    }

    /// The bytes rendered so far.
    pub fn as_bytes(&self) -> (r: &[u8])
        ensures
            r@ == self@,
    {
        self.buf.as_bytes()
    }

    /// The message that the host receives for the current contents.
    pub fn print(&self, writer: &writer::HilogWriter) -> (r: Vec<u8>)
        ensures
            r@ == writer::until_nul(self@),
    {
        writer.print(&self.buf)
    }
}

} // verus!
