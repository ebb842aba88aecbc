use crate::btf::error::{and_then, Error, ErrorKind};
use crate::btf::file_header::FileHeader;
use crate::btf::header::Header;
use crate::btf::kind::Kind;
use crate::btf::model::{check_tail, tail_fits, view_agrees, TypeRecord};
use crate::btf::readable::Readable;
use crate::btf::type_trait::Type;
use crate::utils::reader::{Endianness, Reader};
use vstd::prelude::*;

verus! {

/// Restrict data
#[derive(Debug, Clone, Copy)]
pub struct Data {
    /// The type that is made restrict
    pub tid: u32,
}

impl View for Data {
    type V = Data;

    open spec fn view(&self) -> Data {
        *self
    }
}

/// The number of bytes in the tail of a `Restrict` type.
pub open spec fn tail_size(type_header: Header) -> int {
    0
}

/// The data of a `Restrict` type: the type id in its header.
pub open spec fn data_at(
    content: Seq<u8>,
    endianness: Endianness,
    file_header: FileHeader,
    offset: int,
    type_header: Header,
) -> Result<Data, ErrorKind> {
    Ok(Data { tid: type_header.size_or_type })
}

impl Data {
    /// The size of the extra data
    pub fn size(type_header: &Header) -> (size: usize)
        ensures
            size == tail_size(*type_header),
    {
        0
    }

    /// Creates a new `Data` object
    pub fn new<R: Readable>(
        reader: &mut Reader<R>,
        file_header: &FileHeader,
        type_header: &Header,
    ) -> (r: Result<Self, Error>)
        ensures
            final(reader).same_source(old(reader)),
            view_agrees(
                r,
                data_at(
                    old(reader).content(),
                    old(reader).endianness,
                    *file_header,
                    old(reader).offset as int,
                    *type_header,
                ),
                old(reader).reliable(),
            ),
            r is Ok ==> final(reader).offset == old(reader).offset + tail_size(*type_header),
    {
        Ok(Self { tid: type_header.size_or_type() })
    }
}

/// The `Restrict` type whose tail lies at `offset` of `content`, for the header that
/// stands before it. The header has to be of the kind `Restrict` and the tail has
/// to lie inside the type section.
pub open spec fn restrict_at(
    content: Seq<u8>,
    endianness: Endianness,
    file_header: FileHeader,
    offset: int,
    type_header: Header,
) -> Result<TypeRecord<Data>, ErrorKind> {
    if type_header.kind != Kind::Restrict {
        Err(ErrorKind::InvalidBTFKind)
    } else {
        and_then(tail_fits(file_header, offset, tail_size(type_header)), |fits: ()|
            and_then(data_at(content, endianness, file_header, offset, type_header), |data: Data|
                Ok(TypeRecord { header: type_header, data })))
    }
}

/// Represents a `Restrict` type.
#[derive(Debug)]
pub struct Restrict {
    /// Type header
    pub type_header: Header,
    /// Type data
    pub data: Data,
}

impl View for Restrict {
    type V = TypeRecord<Data>;

    open spec fn view(&self) -> TypeRecord<Data> {
        TypeRecord { header: self.type_header, data: self.data@ }
    }
}

impl Clone for Restrict {
    fn clone(&self) -> (copy: Self)
        ensures
            copy@ == self@,
    {
        Restrict { type_header: self.type_header, data: self.data.clone() }
    }
}

impl Type for Restrict {
    open spec fn type_header(&self) -> Header {
        self.type_header
    }

    /// Returns the type header
    fn header(&self) -> (header: &Header) {
        &self.type_header
    }
}

impl Restrict {
    /// Creates a new `Restrict` object from the given data
    pub fn create(
        type_header: Header,
        tid: u32,
    ) -> (r: Self)
        ensures
            r.type_header == type_header,
            r.data == (Data { tid }),
    {
        Self { type_header, data: Data { tid } }
    }

    /// Creates a new `Restrict` object
    pub fn new<R: Readable>(
        reader: &mut Reader<R>,
        file_header: &FileHeader,
        type_header: Header,
    ) -> (r: Result<Self, Error>)
        ensures
            final(reader).same_source(old(reader)),
            view_agrees(
                r,
                restrict_at(
                    old(reader).content(),
                    old(reader).endianness,
                    *file_header,
                    old(reader).offset as int,
                    type_header,
                ),
                old(reader).reliable(),
            ),
            r is Ok ==> final(reader).offset == old(reader).offset + tail_size(type_header),
    {
        match type_header.kind() {
            Kind::Restrict => {},
            _ => {
                return Err(Error::new(ErrorKind::InvalidBTFKind, "Invalid type kind: expected Restrict"));
            },
        }
        check_tail(file_header, reader.offset(), Data::size(&type_header))?;
        let data = Data::new(reader, file_header, &type_header)?;
        Ok(Self { type_header, data })
    }

    /// Returns the `tid` field of the type
    pub fn tid(&self) -> (tid: &u32)
        ensures
            *tid == self.data.tid,
    {
        &self.data.tid
    }
}

} // verus!
