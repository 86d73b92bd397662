//! A byte buffer that written XML is collected in and then read back as a string.

use vstd::prelude::*;
use vstd::utf8::{valid_utf8, decode_utf8};

verus! {

/// Buffer from writing bytes to. The buffer can then be converted to a String
#[derive(Debug, Clone, PartialEq, Eq)]
pub struct StringBuffer {
    buf: Vec<u8>,
}

impl View for StringBuffer {
    type V = Seq<u8>;

    closed spec fn view(&self) -> Seq<u8> {
        self.buf@
    }
}

/// Converts bytes to a `String` with `String::from_utf8`. Claims, as its documentation says:
/// it succeeds exactly on valid UTF-8, and the string then holds the characters that the bytes
/// encode.
#[verifier::external_body]
fn string_from_utf8(bytes: Vec<u8>) -> (r: Option<String>)
    ensures
        r is Some <==> valid_utf8(bytes@),
        r matches Some(s) ==> s@ == decode_utf8(bytes@),
{
    match String::from_utf8(bytes) {
        Ok(s) => Some(s),
        Err(_) => None,
    }
}

impl StringBuffer {
    /// An empty buffer.
    pub fn new() -> (b: Self)
        ensures
            b@ == Seq::<u8>::empty(),
    {
        StringBuffer { buf: Vec::new() }
    }

    /// Appends `buf` to the buffer and reports that all of it was taken.
    pub fn write(&mut self, buf: &[u8]) -> (n: usize)
        ensures
            final(self)@ == old(self)@ + buf@,
            n == buf@.len(),
    {
        let mut i: usize = 0;
        let ghost start = self.buf@;
        while i < buf.len()
            invariant
                i <= buf@.len(),
                self.buf@ == start + buf@.subrange(0, i as int),
            decreases buf@.len() - i,
        {
            self.buf.push(buf[i]);
            i = i + 1;
            assert(self.buf@ =~= start + buf@.subrange(0, i as int));
        }
        assert(buf@.subrange(0, buf@.len() as int) =~= buf@);
        buf.len()
    }

    /// The buffered bytes.
    pub fn as_slice(&self) -> (s: &[u8])
        ensures
            s@ == self@,
    {
        self.buf.as_slice()
    }

    /// Nothing is held back, so flushing changes nothing.
    pub fn flush(&mut self)
        ensures
            final(self)@ == old(self)@,
    {
    }

    /// The buffered bytes read as UTF-8; the buffer must hold valid UTF-8.
    pub fn to_string(self) -> (s: String)
        requires
            valid_utf8(self@),
        ensures
            s@ == decode_utf8(self@),
    {
        match string_from_utf8(self.buf) {
            Some(s) => s,
            None => {
                proof {
                    assert(false);
                }
                String::new()
            },
        }
    }
}

/// The bytes of all the writes, joined in order.
pub open spec fn joined(writes: Seq<Seq<u8>>) -> Seq<u8>
    decreases writes.len(),
{
    if writes.len() == 0 {
        Seq::empty()
    } else {
        joined(writes.drop_last()) + writes.last()
    }
}

/// A buffer that starts empty (as `new` makes it) and then takes the writes `writes[0]`,
/// `writes[1]`, ... in turn (each step as `write` changes it) holds every written byte, in
/// write order, nothing dropped or duplicated: `buffers[i]` is the buffer after `i` writes.
/// Read back with `to_string`, the last one gives the text that these bytes encode.
pub proof fn lemma_writes_accumulate(buffers: Seq<StringBuffer>, writes: Seq<Seq<u8>>)
    requires
        buffers.len() == writes.len() + 1,
        buffers[0]@ == Seq::<u8>::empty(),
        forall|i: int| 0 <= i < writes.len() ==> #[trigger] buffers[i + 1]@ == buffers[i]@ + writes[i],
    ensures
        buffers.last()@ == joined(writes),
    decreases writes.len(),
{
    if writes.len() > 0 {
        let n = writes.len() - 1;
        let prefix = buffers.drop_last();
        assert forall|i: int| 0 <= i < writes.drop_last().len() implies #[trigger] prefix[i + 1]@
            == prefix[i]@ + writes.drop_last()[i] by {
            assert(buffers[i + 1]@ == buffers[i]@ + writes[i]);
        }
        lemma_writes_accumulate(prefix, writes.drop_last());
        assert(buffers[n + 1]@ == buffers[n]@ + writes[n]);
    } else {
        assert(joined(writes) =~= Seq::<u8>::empty());
    }
}

impl Default for StringBuffer {
    fn default() -> (b: Self)
        ensures
            b@ == Seq::<u8>::empty(),
    {
        StringBuffer::new()
    }
}

} // verus!
