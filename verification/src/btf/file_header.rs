use crate::btf::error::{and_then, Error, ErrorKind};
use crate::btf::readable::Readable;
use crate::utils::reader::{u16_at, u32_at, u8_at, Endianness, Reader};
use vstd::prelude::*;

verus! {

/// BTF magic number (little endian)
pub const BTF_LITTLE_ENDIAN_MAGIC: u16 = 0xEB9F;

/// BTF magic number (big endian)
pub const BTF_BIG_ENDIAN_MAGIC: u16 = 0x9FEB;

/// BTF header
#[derive(Debug, Clone, Copy)]
pub struct FileHeader {
    /// BTF version
    pub version: u8,
    /// BTF flags
    pub flags: u8,
    /// Header length
    pub hdr_len: u32,
    /// Offset of the type section
    pub type_off: u32,
    /// Length of the type section
    pub type_len: u32,
    /// Offset of the string section
    pub str_off: u32,
    /// Length of the string section
    pub str_len: u32,
}

/// The byte order that a magic number stands for.
pub open spec fn magic_endianness(magic: u16) -> Result<Endianness, ErrorKind> {
    if magic == BTF_LITTLE_ENDIAN_MAGIC {
        Ok(Endianness::Little)
    } else if magic == BTF_BIG_ENDIAN_MAGIC {
        Ok(Endianness::Big)
    } else {
        Err(ErrorKind::InvalidMagic)
    }
}

/// The byte order that the magic number at `offset` of `content` stands
/// for, as a reader in the byte order `initial` sees it.
pub open spec fn endianness_at(
    content: Seq<u8>,
    initial: Endianness,
    offset: int,
) -> Result<Endianness, ErrorKind> {
    and_then(u16_at(content, initial, offset), |magic: u16| magic_endianness(magic))
}

/// The byte order of `content`, told by the magic number in its first two
/// bytes as a reader in the byte order `initial` sees it.
pub open spec fn endianness_of(
    content: Seq<u8>,
    initial: Endianness,
) -> Result<Endianness, ErrorKind> {
    endianness_at(content, initial, 0)
}

/// The header fields that follow the magic number in `content`.
pub open spec fn header_fields(
    content: Seq<u8>,
    endianness: Endianness,
) -> Result<FileHeader, ErrorKind> {
    and_then(u8_at(content, endianness, 2), |version: u8|
        and_then(u8_at(content, endianness, 3), |flags: u8|
            and_then(u32_at(content, endianness, 4), |hdr_len: u32|
                and_then(u32_at(content, endianness, 8), |type_off: u32|
                    and_then(u32_at(content, endianness, 12), |type_len: u32|
                        and_then(u32_at(content, endianness, 16), |str_off: u32|
                            and_then(u32_at(content, endianness, 20), |str_len: u32|
                                Ok(
                                    FileHeader { version, flags, hdr_len, type_off, type_len, str_off, str_len },
                                ))))))))
}

/// The header of `content` for a reader that starts in the byte order `initial`.
pub open spec fn file_header_of(
    content: Seq<u8>,
    initial: Endianness,
) -> Result<FileHeader, ErrorKind> {
    and_then(endianness_of(content, initial), |endianness: Endianness| header_fields(content, endianness))
}

impl FileHeader {
    /// Creates a new `FileHeader` instance
    pub fn new<R: Readable>(reader: &mut Reader<R>) -> (r: Result<Self, Error>)
        ensures
            final(reader).content() == old(reader).content(),
            final(reader).reliable() == old(reader).reliable(),
            crate::btf::error::agrees(
                r,
                file_header_of(old(reader).content(), old(reader).endianness),
                old(reader).reliable(),
            ),
            r is Ok ==> final(reader).offset == 24 && Ok::<Endianness, ErrorKind>(final(reader).endianness) == endianness_of(
                old(reader).content(),
                old(reader).endianness,
            ),
    {
        reader.set_offset(0);
        match Self::detect_endianness(reader) {
            Ok(()) => {},
            Err(e) => { return Err(e); },
        }
        let version = match reader.u8() { Ok(v) => v, Err(e) => { return Err(e); } };
        let flags = match reader.u8() { Ok(v) => v, Err(e) => { return Err(e); } };
        let hdr_len = match reader.u32() { Ok(v) => v, Err(e) => { return Err(e); } };
        let type_off = match reader.u32() { Ok(v) => v, Err(e) => { return Err(e); } };
        let type_len = match reader.u32() { Ok(v) => v, Err(e) => { return Err(e); } };
        let str_off = match reader.u32() { Ok(v) => v, Err(e) => { return Err(e); } };
        let str_len = match reader.u32() { Ok(v) => v, Err(e) => { return Err(e); } };
        Ok(FileHeader { version, flags, hdr_len, type_off, type_len, str_off, str_len })
    }

    /// Returns the BTF version
    pub fn version(&self) -> (version: u8)
        ensures
            version == self.version,
    {
        self.version
    }

    /// Returns the BTF flags
    pub fn flags(&self) -> (flags: u8)
        ensures
            flags == self.flags,
    {
        self.flags
    }

    /// Returns the BTF header length
    pub fn hdr_len(&self) -> (hdr_len: u32)
        ensures
            hdr_len == self.hdr_len,
    {
        self.hdr_len
    }

    /// Returns the type section offset
    pub fn type_off(&self) -> (type_off: u32)
        ensures
            type_off == self.type_off,
    {
        self.type_off
    }

    /// Returns the type section length
    pub fn type_len(&self) -> (type_len: u32)
        ensures
            type_len == self.type_len,
    {
        self.type_len
    }

    /// Returns the string section offset
    pub fn str_off(&self) -> (str_off: u32)
        ensures
            str_off == self.str_off,
    {
        self.str_off
    }

    /// Returns the string section length
    pub fn str_len(&self) -> (str_len: u32)
        ensures
            str_len == self.str_len,
    {
        self.str_len
    }

    /// Detects the endianness of the BTF data
    pub fn detect_endianness<R: Readable>(reader: &mut Reader<R>) -> (r: Result<(), Error>)
        ensures
            final(reader).content() == old(reader).content(),
            final(reader).reliable() == old(reader).reliable(),
            match r {
                Ok(()) => {
                    &&& endianness_at(
                        old(reader).content(),
                        old(reader).endianness,
                        old(reader).offset as int,
                    )
                        == Ok::<Endianness, ErrorKind>(final(reader).endianness)
                    &&& final(reader).offset == old(reader).offset + 2
                },
                Err(e) => endianness_at(
                    old(reader).content(),
                    old(reader).endianness,
                    old(reader).offset as int,
                )
                    == Err::<Endianness, ErrorKind>(e.kind) || (!old(reader).reliable() && e.kind
                    == ErrorKind::IOError),
            },
    {
        match reader.u16() {
            Ok(magic) => {
                if magic == BTF_LITTLE_ENDIAN_MAGIC {
                    reader.set_endianness(Endianness::Little);
                    Ok(())
                } else if magic == BTF_BIG_ENDIAN_MAGIC {
                    reader.set_endianness(Endianness::Big);
                    Ok(())
                } else {
                    Err(
                        Error::new(
                            ErrorKind::InvalidMagic,
                            crate::utils::text::with_number("Invalid magic number: ", magic as u64).as_str(),
                        ),
                    )
                }
            },
            Err(e) => Err(e),
        }
    }
}

} // verus!
