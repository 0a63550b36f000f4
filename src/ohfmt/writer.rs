//! The sink side: what the host receives for a rendered buffer.
use vstd::prelude::*;
use crate::ohfmt::Buffer;

verus! {

/// The bytes before the first NUL: the host reads the message as a C string.
pub open spec fn until_nul(s: Seq<u8>) -> Seq<u8>
    decreases s.len(),
{
    if s.len() == 0 {
        s
    } else if s[0] == 0 {
        Seq::empty()
    } else {
        seq![s[0]] + until_nul(s.drop_first())
    }
}

/// Hands out buffers and turns their contents into host messages.
#[derive(Debug, Default)]
pub struct HilogWriter;

impl HilogWriter {
    pub(crate) fn buffer(&self) -> (r: Buffer)
        ensures
            r@ == Seq::<u8>::empty(),
    {
        Buffer::new()
    }

    /// The message text for `buf`: its bytes up to the first NUL.
    pub(crate) fn print(&self, buf: &Buffer) -> (r: Vec<u8>)
        ensures
            r@ == until_nul(buf@),
    {
        let bytes = buf.as_bytes();
        let mut out: Vec<u8> = Vec::new();
        let mut i: usize = 0;
        assert(bytes@.subrange(0, bytes@.len() as int) == bytes@);
        assert(out@ + until_nul(bytes@) == until_nul(bytes@));
        while i < bytes.len() && bytes[i] != 0
            invariant
                i <= bytes@.len(),
                forall|j: int| 0 <= j < i ==> bytes@[j] != 0,
                out@ == bytes@.subrange(0, i as int),
                until_nul(bytes@) == out@ + until_nul(bytes@.subrange(i as int, bytes@.len() as int)),
            decreases bytes@.len() - i,
        {
            let ghost rest = bytes@.subrange(i as int, bytes@.len() as int);
            assert(rest.drop_first() == bytes@.subrange(i + 1, bytes@.len() as int));
            out.push(bytes[i]);
            i += 1;
            assert(out@ == bytes@.subrange(0, i as int));
        }
        let ghost rest = bytes@.subrange(i as int, bytes@.len() as int);
        assert(rest.len() == 0 || rest[0] == 0);
        out
    }
}

/// Configuration of the writer; there is nothing to configure yet.
#[derive(Default)]
pub struct Builder {
    built: bool,
}

impl Builder {
    pub fn new() -> (r: Builder)
        ensures
            !r.is_built(),
    {
        Builder { built: false }
    }

    pub closed spec fn is_built(&self) -> bool {
        self.built
    }

    pub(crate) fn build(&mut self) -> (r: HilogWriter)
        ensures
            final(self).is_built(),
    {
        self.built = true;
        HilogWriter
    }
}

} // verus!
