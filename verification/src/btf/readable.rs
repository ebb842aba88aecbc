use crate::btf::error::{Error, ErrorKind};
use vstd::prelude::*;

verus! {

/// What a read of `len` bytes at `offset` yields from a source that holds
/// `content`: the bytes, `EOF` where the read starts exactly at the end, and
/// `InvalidOffset` where the range reaches past the end.
pub open spec fn read_outcome(
    content: Seq<u8>,
    offset: int,
    len: int,
) -> Result<Seq<u8>, ErrorKind> {
    if offset == content.len() {
        Err(ErrorKind::EOF)
    } else if offset + len > content.len() {
        Err(ErrorKind::InvalidOffset)
    } else {
        Ok(content.subrange(offset, offset + len))
    }
}

/// A trait for reading bytes from a source
pub trait Readable {
    /// The bytes that the source holds. A source that does not say what it
    /// holds, holds some bytes that do not change.
    open spec fn content(&self) -> Seq<u8> {
        arbitrary()
    }

    /// Whether every failure of a read is decided by the range that was
    /// asked for; a source that is not reliable may also fail with
    /// `IOError`. A source that does not say so is not reliable.
    open spec fn reliable(&self) -> bool {
        false
    }

    /// Reads `buffer.len()` bytes from the given offset
    fn read(&self, offset: u64, buffer: &mut [u8]) -> (r: Result<(), Error>)
        ensures
            final(buffer)@.len() == old(buffer)@.len(),
            match r {
                Ok(()) => read_outcome(self.content(), offset as int, old(buffer)@.len() as int)
                    == Ok::<Seq<u8>, ErrorKind>(final(buffer)@),
                Err(e) => read_outcome(self.content(), offset as int, old(buffer)@.len() as int)
                    == Err::<Seq<u8>, ErrorKind>(e.kind) || (!self.reliable() && e.kind
                    == ErrorKind::IOError),
            },
    ;
}

} // verus!
