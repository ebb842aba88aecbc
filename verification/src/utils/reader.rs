use crate::btf::error::{agrees, Error, ErrorKind};
use crate::btf::readable::{read_outcome, Readable};
use vstd::prelude::*;

verus! {

/// Endianness type
#[derive(Clone, Copy, Debug, PartialEq, Eq, Structural)]
pub enum Endianness {
    /// Little endian
    Little,
    /// Big endian
    Big,
}

/// The unsigned number that `bytes` spell, least significant byte first.
pub open spec fn le_value(bytes: Seq<u8>) -> nat
    decreases bytes.len(),
{
    if bytes.len() == 0 {
        0
    } else {
        bytes[0] as nat + 256 * le_value(bytes.drop_first())
    }
}

/// The unsigned number that `bytes` spell in the given byte order.
pub open spec fn unsigned_value(bytes: Seq<u8>, endianness: Endianness) -> nat {
    match endianness {
        Endianness::Little => le_value(bytes),
        Endianness::Big => le_value(bytes.reverse()),
    }
}

/// The two's complement reading of an unsigned number below `modulus`, a
/// power of two.
pub open spec fn signed_value(value: nat, modulus: nat) -> int {
    if 2 * value < modulus {
        value as int
    } else {
        value - modulus
    }
}

/// What `count` bytes at `offset` of `content` are for a reader: as the
/// source has them, but `InvalidOffset` where the position behind them does
/// not fit in `usize`.
pub open spec fn bytes_at(content: Seq<u8>, offset: int, count: int) -> Result<Seq<u8>, ErrorKind> {
    match read_outcome(content, offset, count) {
        Ok(bytes) => if offset + count > usize::MAX {
            Err(ErrorKind::InvalidOffset)
        } else {
            Ok(bytes)
        },
        Err(kind) => Err(kind),
    }
}

/// The unsigned number of `count` bytes at `offset` of `content`.
pub open spec fn unsigned_at(
    content: Seq<u8>,
    endianness: Endianness,
    offset: int,
    count: int,
) -> Result<nat, ErrorKind> {
    match bytes_at(content, offset, count) {
        Ok(bytes) => Ok(unsigned_value(bytes, endianness)),
        Err(kind) => Err(kind),
    }
}

/// The `u8` that the 1 byte at `offset` of `content` spell.
pub open spec fn u8_at(
    content: Seq<u8>,
    endianness: Endianness,
    offset: int,
) -> Result<u8, ErrorKind> {
    match unsigned_at(content, endianness, offset, 1) {
        Ok(value) => Ok(value as u8),
        Err(kind) => Err(kind),
    }
}

/// The `u16` that the 2 bytes at `offset` of `content` spell.
pub open spec fn u16_at(
    content: Seq<u8>,
    endianness: Endianness,
    offset: int,
) -> Result<u16, ErrorKind> {
    match unsigned_at(content, endianness, offset, 2) {
        Ok(value) => Ok(value as u16),
        Err(kind) => Err(kind),
    }
}

/// The `u32` that the 4 bytes at `offset` of `content` spell.
pub open spec fn u32_at(
    content: Seq<u8>,
    endianness: Endianness,
    offset: int,
) -> Result<u32, ErrorKind> {
    match unsigned_at(content, endianness, offset, 4) {
        Ok(value) => Ok(value as u32),
        Err(kind) => Err(kind),
    }
}

/// The `u64` that the 8 bytes at `offset` of `content` spell.
pub open spec fn u64_at(
    content: Seq<u8>,
    endianness: Endianness,
    offset: int,
) -> Result<u64, ErrorKind> {
    match unsigned_at(content, endianness, offset, 8) {
        Ok(value) => Ok(value as u64),
        Err(kind) => Err(kind),
    }
}

/// The `i8` that the 1 byte at `offset` of `content` spell in two's complement.
pub open spec fn i8_at(
    content: Seq<u8>,
    endianness: Endianness,
    offset: int,
) -> Result<i8, ErrorKind> {
    match unsigned_at(content, endianness, offset, 1) {
        Ok(value) => Ok(signed_value(value, 0x100) as i8),
        Err(kind) => Err(kind),
    }
}

/// The `i16` that the 2 bytes at `offset` of `content` spell in two's complement.
pub open spec fn i16_at(
    content: Seq<u8>,
    endianness: Endianness,
    offset: int,
) -> Result<i16, ErrorKind> {
    match unsigned_at(content, endianness, offset, 2) {
        Ok(value) => Ok(signed_value(value, 0x1_0000) as i16),
        Err(kind) => Err(kind),
    }
}

/// The `i32` that the 4 bytes at `offset` of `content` spell in two's complement.
pub open spec fn i32_at(
    content: Seq<u8>,
    endianness: Endianness,
    offset: int,
) -> Result<i32, ErrorKind> {
    match unsigned_at(content, endianness, offset, 4) {
        Ok(value) => Ok(signed_value(value, 0x1_0000_0000) as i32),
        Err(kind) => Err(kind),
    }
}

/// The `i64` that the 8 bytes at `offset` of `content` spell in two's complement.
pub open spec fn i64_at(
    content: Seq<u8>,
    endianness: Endianness,
    offset: int,
) -> Result<i64, ErrorKind> {
    match unsigned_at(content, endianness, offset, 8) {
        Ok(value) => Ok(signed_value(value, 0x1_0000_0000_0000_0000) as i64),
        Err(kind) => Err(kind),
    }
}

/// The number that one byte spells is the byte.
pub proof fn lemma_le_value_1(bytes: Seq<u8>)
    requires
        bytes.len() == 1,
    ensures
        le_value(bytes) == bytes[0],
{
    reveal_with_fuel(le_value, 2);
    assert(bytes.drop_first().len() == 0);
}

/// The number that two bytes spell, written out.
pub proof fn lemma_le_value_2(bytes: Seq<u8>)
    requires
        bytes.len() == 2,
    ensures
        le_value(bytes) == bytes[0] + 256 * bytes[1],
{
    lemma_le_value_1(bytes.drop_first());
}

/// The number that four bytes spell, written out.
pub proof fn lemma_le_value_4(bytes: Seq<u8>)
    requires
        bytes.len() == 4,
    ensures
        le_value(bytes) == bytes[0] + 256 * bytes[1] + 65536 * bytes[2] + 16777216 * bytes[3],
{
    let t = bytes.drop_first();
    lemma_le_value_2(t.drop_first());
    assert(le_value(t) == t[0] + 256 * le_value(t.drop_first()));
}

/// The number that eight bytes spell, written out.
pub proof fn lemma_le_value_8(bytes: Seq<u8>)
    requires
        bytes.len() == 8,
    ensures
        le_value(bytes) == bytes[0] + 256 * bytes[1] + 65536 * bytes[2] + 16777216 * bytes[3]
            + 4294967296 * bytes[4] + 1099511627776 * bytes[5] + 281474976710656 * bytes[6]
            + 72057594037927936 * bytes[7],
{
    let t1 = bytes.drop_first();
    let t2 = t1.drop_first();
    let t3 = t2.drop_first();
    let t4 = t3.drop_first();
    lemma_le_value_4(t4);
    assert(le_value(t3) == t3[0] + 256 * le_value(t4));
    assert(le_value(t2) == t2[0] + 256 * le_value(t3));
    assert(le_value(t1) == t1[0] + 256 * le_value(t2));
}

/// The number that up to eight bytes spell is below the power of 256 of their count.
pub proof fn lemma_unsigned_value_bound(bytes: Seq<u8>, endianness: Endianness)
    ensures
        bytes.len() == 1 ==> unsigned_value(bytes, endianness) < 0x100,
        bytes.len() == 2 ==> unsigned_value(bytes, endianness) < 0x1_0000,
        bytes.len() == 4 ==> unsigned_value(bytes, endianness) < 0x1_0000_0000,
        bytes.len() == 8 ==> unsigned_value(bytes, endianness) < 0x1_0000_0000_0000_0000,
{
    let ordered = match endianness {
        Endianness::Little => bytes,
        Endianness::Big => bytes.reverse(),
    };
    if bytes.len() == 1 {
        lemma_le_value_1(ordered);
    } else if bytes.len() == 2 {
        lemma_le_value_2(ordered);
    } else if bytes.len() == 4 {
        lemma_le_value_4(ordered);
    } else if bytes.len() == 8 {
        lemma_le_value_8(ordered);
    }
}

/// A reader class, to be used with a `Readable` source
pub struct Reader<'a, R: Readable> {
    /// The `Readable` source to read from
    pub readable: &'a R,
    /// The current offset
    pub offset: usize,
    /// The current endianness
    pub endianness: Endianness,
}

impl<'a, R: Readable> Reader<'a, R> {
    /// The bytes of the source that the reader reads from.
    pub open spec fn content(&self) -> Seq<u8> {
        self.readable.content()
    }

    /// Whether the source fails only where the range of a read decides it.
    pub open spec fn reliable(&self) -> bool {
        self.readable.reliable()
    }

    /// Whether this reader reads the same source in the same byte order as `other`.
    pub open spec fn same_source(&self, other: &Reader<R>) -> bool {
        &&& self.content() == other.content()
        &&& self.reliable() == other.reliable()
        &&& self.endianness == other.endianness
    }

    /// How a read of `count` bytes that was to give `expected` has left the
    /// reader `post` and its result `r`, when `self` is the reader before:
    /// the position moves on by `count` on success and stays on failure.
    pub open spec fn read_step<T>(
        &self,
        post: &Reader<R>,
        r: Result<T, Error>,
        expected: Result<T, ErrorKind>,
        count: int,
    ) -> bool {
        &&& post.same_source(self)
        &&& agrees(r, expected, self.reliable())
        &&& post.offset == if r is Ok {
            self.offset + count
        } else {
            self.offset as int
        }
    }

    /// Creates a new `Reader` instance
    pub fn new(readable: &'a R) -> (r: Reader<'a, R>)
        ensures
            r.readable == readable,
            r.content() == readable.content(),
            r.reliable() == readable.reliable(),
            r.offset == 0,
            r.endianness == Endianness::Little,
    {
        Reader { readable, offset: 0, endianness: Endianness::Little }
    }

    /// Returns the current endianness
    pub fn endianness(&self) -> (endianness: Endianness)
        ensures
            endianness == self.endianness,
    {
        self.endianness
    }

    /// Sets the current endianness
    pub fn set_endianness(&mut self, endianness: Endianness)
        ensures
            final(self).endianness == endianness,
            final(self).offset == old(self).offset,
            final(self).content() == old(self).content(),
            final(self).reliable() == old(self).reliable(),
    {
        self.endianness = endianness
    }

    /// Returns the current offset
    pub fn offset(&self) -> (offset: usize)
        ensures
            offset == self.offset,
    {
        self.offset
    }

    /// Sets the current offset
    pub fn set_offset(&mut self, offset: usize)
        ensures
            final(self).offset == offset,
            final(self).same_source(old(self)),
    {
        self.offset = offset;
    }

    /// Reads `buffer.len()` bytes from the current offset
    pub fn read(&mut self, buffer: &mut [u8]) -> (r: Result<(), Error>)
        ensures
            final(buffer)@.len() == old(buffer)@.len(),
            final(self).same_source(old(self)),
            match r {
                Ok(()) => {
                    &&& bytes_at(old(self).content(), old(self).offset as int, old(buffer)@.len() as int)
                        == Ok::<Seq<u8>, ErrorKind>(final(buffer)@)
                    &&& final(self).offset == old(self).offset + old(buffer)@.len()
                },
                Err(e) => {
                    &&& final(self).offset == old(self).offset
                    &&& bytes_at(old(self).content(), old(self).offset as int, old(buffer)@.len() as int)
                        == Err::<Seq<u8>, ErrorKind>(e.kind) || (!old(self).reliable() && e.kind
                        == ErrorKind::IOError)
                },
            },
    {
        let count = buffer.len();
        match self.readable.read(self.offset as u64, buffer) {
            Ok(()) => {
                if count > usize::MAX - self.offset {
                    Err(Error::new(ErrorKind::InvalidOffset, "The offset behind the bytes read is too large"))
                } else {
                    self.offset += count;
                    Ok(())
                }
            },
            Err(e) => Err(e),
        }
    }

    /// Reads a `u8` from the current offset
    pub fn u8(&mut self) -> (r: Result<u8, Error>)
        ensures
            old(self).read_step(
                final(self),
                r,
                u8_at(old(self).content(), old(self).endianness, old(self).offset as int),
                1,
            ),
    {
        let mut buffer: [u8; 1] = [0; 1];
        match self.read(&mut buffer) {
            Ok(()) => {
                proof {
                    lemma_le_value_1(buffer@);
                    lemma_le_value_1(buffer@.reverse());
                }
                Ok(buffer[0])
            },
            Err(e) => Err(e),
        }
    }

    /// Reads a `u16` from the current offset
    pub fn u16(&mut self) -> (r: Result<u16, Error>)
        ensures
            old(self).read_step(
                final(self),
                r,
                u16_at(old(self).content(), old(self).endianness, old(self).offset as int),
                2,
            ),
    {
        let mut buffer: [u8; 2] = [0; 2];
        match self.read(&mut buffer) {
            Ok(()) => {
                proof {
                    lemma_le_value_2(buffer@);
                    lemma_le_value_2(buffer@.reverse());
                }
                let value = match self.endianness {
                    Endianness::Little => buffer[0] as u16 + buffer[1] as u16 * 256,
                    Endianness::Big => buffer[1] as u16 + buffer[0] as u16 * 256,
                };
                Ok(value)
            },
            Err(e) => Err(e),
        }
    }

    /// Reads a `u32` from the current offset
    pub fn u32(&mut self) -> (r: Result<u32, Error>)
        ensures
            old(self).read_step(
                final(self),
                r,
                u32_at(old(self).content(), old(self).endianness, old(self).offset as int),
                4,
            ),
    {
        let mut buffer: [u8; 4] = [0; 4];
        match self.read(&mut buffer) {
            Ok(()) => {
                proof {
                    lemma_le_value_4(buffer@);
                    lemma_le_value_4(buffer@.reverse());
                }
                let value = match self.endianness {
                    Endianness::Little => buffer[0] as u32 + buffer[1] as u32 * 256 + buffer[2] as u32
                        * 65536 + buffer[3] as u32 * 16777216,
                    Endianness::Big => buffer[3] as u32 + buffer[2] as u32 * 256 + buffer[1] as u32
                        * 65536 + buffer[0] as u32 * 16777216,
                };
                Ok(value)
            },
            Err(e) => Err(e),
        }
    }

    /// Reads a `u64` from the current offset
    pub fn u64(&mut self) -> (r: Result<u64, Error>)
        ensures
            old(self).read_step(
                final(self),
                r,
                u64_at(old(self).content(), old(self).endianness, old(self).offset as int),
                8,
            ),
    {
        let mut buffer: [u8; 8] = [0; 8];
        match self.read(&mut buffer) {
            Ok(()) => {
                proof {
                    lemma_le_value_8(buffer@);
                    lemma_le_value_8(buffer@.reverse());
                }
                let value = match self.endianness {
                    Endianness::Little => buffer[0] as u64 + buffer[1] as u64 * 256 + buffer[2] as u64
                        * 65536 + buffer[3] as u64 * 16777216 + buffer[4] as u64 * 4294967296
                        + buffer[5] as u64 * 1099511627776 + buffer[6] as u64 * 281474976710656
                        + buffer[7] as u64 * 72057594037927936,
                    Endianness::Big => buffer[7] as u64 + buffer[6] as u64 * 256 + buffer[5] as u64
                        * 65536 + buffer[4] as u64 * 16777216 + buffer[3] as u64 * 4294967296
                        + buffer[2] as u64 * 1099511627776 + buffer[1] as u64 * 281474976710656
                        + buffer[0] as u64 * 72057594037927936,
                };
                Ok(value)
            },
            Err(e) => Err(e),
        }
    }

    /// Reads an `i8` from the current offset
    pub fn i8(&mut self) -> (r: Result<i8, Error>)
        ensures
            old(self).read_step(
                final(self),
                r,
                i8_at(old(self).content(), old(self).endianness, old(self).offset as int),
                1,
            ),
    {
        proof {
            let bytes = bytes_at(self.content(), self.offset as int, 1);
            if bytes is Ok {
                lemma_unsigned_value_bound(bytes->Ok_0, self.endianness);
            }
        }
        match self.u8() {
            Ok(value) => Ok(
                if value < 0x80 {
                    value as i8
                } else {
                    (value as i16 - 0x100) as i8
                },
            ),
            Err(e) => Err(e),
        }
    }

    /// Reads an `i16` from the current offset
    pub fn i16(&mut self) -> (r: Result<i16, Error>)
        ensures
            old(self).read_step(
                final(self),
                r,
                i16_at(old(self).content(), old(self).endianness, old(self).offset as int),
                2,
            ),
    {
        proof {
            let bytes = bytes_at(self.content(), self.offset as int, 2);
            if bytes is Ok {
                lemma_unsigned_value_bound(bytes->Ok_0, self.endianness);
            }
        }
        match self.u16() {
            Ok(value) => Ok(
                if value < 0x8000 {
                    value as i16
                } else {
                    (value as i32 - 0x1_0000) as i16
                },
            ),
            Err(e) => Err(e),
        }
    }

    /// Reads an `i32` from the current offset
    pub fn i32(&mut self) -> (r: Result<i32, Error>)
        ensures
            old(self).read_step(
                final(self),
                r,
                i32_at(old(self).content(), old(self).endianness, old(self).offset as int),
                4,
            ),
    {
        proof {
            let bytes = bytes_at(self.content(), self.offset as int, 4);
            if bytes is Ok {
                lemma_unsigned_value_bound(bytes->Ok_0, self.endianness);
            }
        }
        match self.u32() {
            Ok(value) => Ok(
                if value < 0x8000_0000 {
                    value as i32
                } else {
                    (value as i64 - 0x1_0000_0000) as i32
                },
            ),
            Err(e) => Err(e),
        }
    }

    /// Reads an `i64` from the current offset
    pub fn i64(&mut self) -> (r: Result<i64, Error>)
        ensures
            old(self).read_step(
                final(self),
                r,
                i64_at(old(self).content(), old(self).endianness, old(self).offset as int),
                8,
            ),
    {
        proof {
            let bytes = bytes_at(self.content(), self.offset as int, 8);
            if bytes is Ok {
                lemma_unsigned_value_bound(bytes->Ok_0, self.endianness);
            }
        }
        match self.u64() {
            Ok(value) => Ok(
                if value < 0x8000_0000_0000_0000 {
                    value as i64
                } else {
                    (value as i128 - 0x1_0000_0000_0000_0000) as i64
                },
            ),
            Err(e) => Err(e),
        }
    }
}

} // verus!

