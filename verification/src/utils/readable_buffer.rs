use crate::btf::error::{Error, ErrorKind};
use crate::btf::readable::Readable;
use vstd::prelude::*;

verus! {

/// A source of bytes that reads from a slice held in memory.
pub struct ReadableBuffer<'a> {
    pub buffer: &'a [u8],
}

impl<'a> ReadableBuffer<'a> {
    pub fn new(buffer: &'a [u8]) -> (r: Self)
        ensures
            r.buffer@ == buffer@,
    {
        Self { buffer }
    }
}

impl<'a> Readable for ReadableBuffer<'a> {
    open spec fn content(&self) -> Seq<u8> {
        self.buffer@
    }

    open spec fn reliable(&self) -> bool {
        true
    }

    fn read(&self, offset: u64, buffer: &mut [u8]) -> (r: Result<(), Error>) {
        let source_len = self.buffer.len();
        if offset == source_len as u64 {
            return Err(Error::new(ErrorKind::EOF, "There are no bytes left to read"));
        }
        let count = buffer.len();
        if offset > source_len as u64 || count > source_len - (offset as usize) {
            return Err(
                Error::new(
                    ErrorKind::InvalidOffset,
                    "There are not enough bytes left to complete the read request",
                ),
            );
        }
        let start = offset as usize;
        let mut i: usize = 0;
        while i < count
            invariant
                i <= count,
                count == buffer@.len(),
                source_len == self.buffer@.len(),
                start + count <= source_len,
                forall|j: int| 0 <= j < i ==> buffer@[j] == self.buffer@[start + j],
            decreases count - i,
        {
            buffer[i] = self.buffer[start + i];
            i += 1;
        }
        assert(buffer@ =~= self.buffer@.subrange(start as int, start + count));
        Ok(())
    }
}

} // verus!
