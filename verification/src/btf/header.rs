use crate::btf::error::{agrees, and_then, Error, ErrorKind};
use crate::btf::file_header::FileHeader;
use crate::btf::kind::{kind_of, Kind};
use crate::btf::readable::Readable;
use crate::utils::reader::{u32_at, Endianness, Reader};
use vstd::prelude::*;

verus! {

/// Type header size
pub const TYPE_HEADER_SIZE: usize = 12;

/// Common type header
#[derive(Debug, Clone, Copy)]
pub struct Header {
    /// Type kind
    pub kind: Kind,
    /// Offset of the type name
    pub name_offset: u32,
    /// Type-related size, for example the member count in a struct
    pub vlen: usize,
    /// Type-related flag, used by struct, union, fwd, enum and enum64
    pub kind_flag: bool,
    /// Depending on the type, it's either a size or a type id
    pub size_or_type: u32,
}

/// Where the type section of a file starts and ends, or
/// `InvalidTypeSectionOffset` where one of the two does not fit in 32 bits.
pub open spec fn type_section(file_header: FileHeader) -> Result<(u32, u32), ErrorKind> {
    let start = file_header.hdr_len + file_header.type_off;
    let end = start + file_header.type_len;
    if end > u32::MAX {
        Err(ErrorKind::InvalidTypeSectionOffset)
    } else {
        Ok((start as u32, end as u32))
    }
}

/// The number of elements in the tail of a type: the low 16 bits of its info word.
pub open spec fn info_vlen(info: u32) -> usize {
    (info & 0xFFFF) as usize
}

/// The number of a type's kind: bits 24 to 28 of its info word.
pub open spec fn info_kind(info: u32) -> u32 {
    (info & 0x1F000000) >> 24
}

/// The flag of a type: bit 31 of its info word.
pub open spec fn info_kind_flag(info: u32) -> bool {
    (info & 0x80000000) != 0
}

/// The type header in the twelve bytes at `offset` of `content`, which have
/// to end inside the type section: the name offset, the info word and the
/// size or type, each of four bytes.
pub open spec fn header_at(
    content: Seq<u8>,
    endianness: Endianness,
    file_header: FileHeader,
    offset: int,
) -> Result<Header, ErrorKind> {
    and_then(type_section(file_header), |section: (u32, u32)|
        if offset + TYPE_HEADER_SIZE > section.1 {
            Err(ErrorKind::InvalidTypeSectionOffset)
        } else {
            and_then(u32_at(content, endianness, offset), |name_offset: u32|
                and_then(u32_at(content, endianness, offset + 4), |info: u32|
                    and_then(kind_of(info_kind(info)), |kind: Kind|
                        and_then(u32_at(content, endianness, offset + 8), |size_or_type: u32|
                            Ok(Header {
                                kind,
                                name_offset,
                                vlen: info_vlen(info),
                                kind_flag: info_kind_flag(info),
                                size_or_type,
                            })))))
        })
}

/// Computes where the type section starts and ends.
pub fn type_section_bounds(file_header: &FileHeader) -> (r: Result<(u32, u32), Error>)
    ensures
        match r {
            Ok(section) => type_section(*file_header) == Ok::<(u32, u32), ErrorKind>(section),
            Err(e) => type_section(*file_header) is Err && e.kind == ErrorKind::InvalidTypeSectionOffset,
        },
{
    let start = match file_header.hdr_len().checked_add(file_header.type_off()) {
        Some(start) => start,
        None => {
            return Err(
                Error::new(ErrorKind::InvalidTypeSectionOffset, "Type section start offset overflow"),
            );
        },
    };
    match start.checked_add(file_header.type_len()) {
        Some(end) => Ok((start, end)),
        None => Err(Error::new(ErrorKind::InvalidTypeSectionOffset, "Type section end offset overflow")),
    }
}

impl Header {
    /// Creates a new `Header` instance
    pub fn new<R: Readable>(
        reader: &mut Reader<R>,
        btf_header: &FileHeader,
    ) -> (r: Result<Header, Error>)
        ensures
            final(reader).same_source(old(reader)),
            agrees(
                r,
                header_at(
                    old(reader).content(),
                    old(reader).endianness,
                    *btf_header,
                    old(reader).offset as int,
                ),
                old(reader).reliable(),
            ),
            r is Ok ==> final(reader).offset == old(reader).offset + TYPE_HEADER_SIZE,
    {
        let (_, type_section_end) = match type_section_bounds(btf_header) {
            Ok(section) => section,
            Err(e) => { return Err(e); },
        };
        if reader.offset() > usize::MAX - TYPE_HEADER_SIZE || reader.offset() + TYPE_HEADER_SIZE
            > type_section_end as usize {
            return Err(Error::new(ErrorKind::InvalidTypeSectionOffset, "Invalid type section offset"));
        }
        let name_offset = match reader.u32() { Ok(v) => v, Err(e) => { return Err(e); } };
        let info_flags = match reader.u32() { Ok(v) => v, Err(e) => { return Err(e); } };
        let vlen = (info_flags & 0xFFFF) as usize;
        let kind = match Kind::new((info_flags & 0x1F000000) >> 24) { Ok(v) => v, Err(e) => { return Err(e); } };
        let kind_flag = (info_flags & 0x80000000) != 0;
        let size_or_type = match reader.u32() { Ok(v) => v, Err(e) => { return Err(e); } };
        Ok(Header { kind, name_offset, vlen, kind_flag, size_or_type })
    }

    /// Returns the raw `kind` value
    pub fn kind(&self) -> (kind: Kind)
        ensures
            kind == self.kind,
    {
        self.kind
    }

    /// Returns the offset of the type name
    pub fn name_offset(&self) -> (name_offset: u32)
        ensures
            name_offset == self.name_offset,
    {
        self.name_offset
    }

    /// Returns the raw `vlen` value
    pub fn vlen(&self) -> (vlen: usize)
        ensures
            vlen == self.vlen,
    {
        self.vlen
    }

    /// Returns the raw `kind_flag` value
    pub fn kind_flag(&self) -> (kind_flag: bool)
        ensures
            kind_flag == self.kind_flag,
    {
        self.kind_flag
    }

    /// Returns the raw `size_or_type` value
    pub fn size_or_type(&self) -> (size_or_type: u32)
        ensures
            size_or_type == self.size_or_type,
    {
        self.size_or_type
    }

    /// Creates a new `Header` instance from its fields
    pub fn create(
        kind: Kind,
        name_offset: u32,
        vlen: usize,
        kind_flag: bool,
        size_or_type: u32,
    ) -> (header: Header)
        ensures
            header == (Header { kind, name_offset, vlen, kind_flag, size_or_type }),
    {
        Header { kind, name_offset, vlen, kind_flag, size_or_type }
    }
}

} // verus!
