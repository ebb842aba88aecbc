use crate::btf::error::{agrees, Error, ErrorKind};
use vstd::prelude::*;
use core::ops::Add;
use vstd::std_specs::ops::AddSpecImpl;

verus! {

/// The location of a member
#[derive(Debug, Clone, Copy, PartialEq, Eq, Structural)]
pub enum Offset {
    /// Byte offset
    ByteOffset(u32),
    /// Bit offset and size
    BitOffsetAndSize(u32, u32),
}

impl Offset {
    /// The offset that lies `bytes` bytes behind this one. A bitfield has
    /// none (`UnexpectedBitfield`), and a sum that does not fit in 32 bits
    /// is `InvalidOffset`.
    pub open spec fn plus_bytes(self, bytes: u32) -> Result<Offset, ErrorKind> {
        match self {
            Offset::ByteOffset(byte_offset) => if byte_offset + bytes > u32::MAX {
                Err(ErrorKind::InvalidOffset)
            } else {
                Ok(Offset::ByteOffset((byte_offset + bytes) as u32))
            },
            Offset::BitOffsetAndSize(_, _) => Err(ErrorKind::UnexpectedBitfield),
        }
    }

    /// The offset of what lies at `inner` inside something that lies at this
    /// offset. Two byte offsets add up; a bitfield inside something at a
    /// byte offset keeps its size and has its bit offset moved by eight
    /// times the byte offset; nothing lies inside a bitfield
    /// (`UnexpectedBitfield`). A product or sum that does not fit in 32 bits
    /// is `InvalidOffset`.
    pub open spec fn plus(self, inner: Offset) -> Result<Offset, ErrorKind> {
        match (self, inner) {
            (Offset::ByteOffset(outer_bytes), Offset::ByteOffset(inner_bytes)) => if outer_bytes
                + inner_bytes > u32::MAX {
                Err(ErrorKind::InvalidOffset)
            } else {
                Ok(Offset::ByteOffset((outer_bytes + inner_bytes) as u32))
            },
            (Offset::ByteOffset(outer_bytes), Offset::BitOffsetAndSize(bit_offset, bit_size)) => if outer_bytes
                * 8 + bit_offset > u32::MAX {
                Err(ErrorKind::InvalidOffset)
            } else {
                Ok(Offset::BitOffsetAndSize((outer_bytes * 8 + bit_offset) as u32, bit_size))
            },
            _ => Err(ErrorKind::UnexpectedBitfield),
        }
    }
}

/// Implements the `Add<u32>` trait for `Offset`
impl Add<u32> for Offset {
    /// A result, because this operation can fail
    type Output = Result<Offset, Error>;

    /// Adds the given value to the member offset. This operation will fail if `self` is a bitfield
    fn add(self, rhs: u32) -> (r: Result<Offset, Error>)
        ensures
            agrees(r, self.plus_bytes(rhs), true),
    {
        match self {
            Offset::ByteOffset(byte_offset) => match byte_offset.checked_add(rhs) {
                Some(sum) => Ok(Offset::ByteOffset(sum)),
                None => Err(Error::new(ErrorKind::InvalidOffset, "Byte offset addition overflow")),
            },
            Offset::BitOffsetAndSize(_, _) => Err(
                Error::new(ErrorKind::UnexpectedBitfield, "Attempted to add a byte offset to a bitfield"),
            ),
        }
    }
}

impl AddSpecImpl<u32> for Offset {
    open spec fn obeys_add_spec() -> bool {
        false
    }

    open spec fn add_req(self, rhs: u32) -> bool {
        true
    }

    open spec fn add_spec(self, rhs: u32) -> Result<Offset, Error> {
        arbitrary()
    }
}

/// Implements the `Add<Offset>` trait for `Offset`
impl Add<Offset> for Offset {
    /// A result, because this operation can fail
    type Output = Result<Offset, Error>;

    /// Adds the given `Offset` to `self`. This operation will fail if `self` is a bitfield
    fn add(self, rhs: Offset) -> (r: Result<Offset, Error>)
        ensures
            agrees(r, self.plus(rhs), true),
    {
        match (self, rhs) {
            (Offset::ByteOffset(lhs_byte_offset), Offset::ByteOffset(rhs_byte_offset)) => match lhs_byte_offset.checked_add(
                rhs_byte_offset,
            ) {
                Some(sum) => Ok(Offset::ByteOffset(sum)),
                None => Err(Error::new(ErrorKind::InvalidOffset, "Byte offset addition overflow")),
            },
            (Offset::ByteOffset(lhs_byte_offset), Offset::BitOffsetAndSize(rhs_bit_offset, rhs_bit_size)) => {
                let lhs_bit_offset = match lhs_byte_offset.checked_mul(8) {
                    Some(product) => product,
                    None => {
                        return Err(
                            Error::new(ErrorKind::InvalidOffset, "Bit offset multiplication overflow"),
                        );
                    },
                };
                match lhs_bit_offset.checked_add(rhs_bit_offset) {
                    Some(bit_offset) => Ok(Offset::BitOffsetAndSize(bit_offset, rhs_bit_size)),
                    None => Err(Error::new(ErrorKind::InvalidOffset, "Bit offset addition overflow")),
                }
            },
            _ => Err(
                Error::new(ErrorKind::UnexpectedBitfield, "Attempted to add a byte offset to a bitfield"),
            ),
        }
    }
}

impl AddSpecImpl<Offset> for Offset {
    open spec fn obeys_add_spec() -> bool {
        false
    }

    open spec fn add_req(self, rhs: Offset) -> bool {
        true
    }

    open spec fn add_spec(self, rhs: Offset) -> Result<Offset, Error> {
        arbitrary()
    }
}

} // verus!
