use crate::btf::error::{and_then, Error, ErrorKind};
use crate::btf::file_header::FileHeader;
use crate::btf::header::Header;
use crate::btf::kind::Kind;
use crate::btf::model::{check_tail, tail_fits, view_agrees, TypeRecord};
use crate::btf::readable::Readable;
use crate::btf::type_trait::Type;
use crate::utils::reader::{u32_at, Endianness, Reader};
use vstd::prelude::*;

verus! {

/// The size of the extra data
pub const ARRAY_DATA_SIZE: usize = 12;

/// Array data
#[derive(Debug, Clone, Copy)]
pub struct Data {
    /// The element type id
    pub element_tid: u32,
    /// The index type id
    pub index_tid: u32,
    /// The number of elements in the array
    pub element_count: u32,
}

impl View for Data {
    type V = Data;

    open spec fn view(&self) -> Data {
        *self
    }
}

/// The number of bytes in the tail of an `Array` type.
pub open spec fn tail_size(type_header: Header) -> int {
    ARRAY_DATA_SIZE as int
}

/// The data of the `Array` type whose tail lies at `offset` of `content`: the element
/// type id, the index type id and the element count, each of four bytes.
pub open spec fn data_at(
    content: Seq<u8>,
    endianness: Endianness,
    file_header: FileHeader,
    offset: int,
    type_header: Header,
) -> Result<Data, ErrorKind> {
    and_then(u32_at(content, endianness, offset), |element_tid: u32|
        and_then(u32_at(content, endianness, offset + 4), |index_tid: u32|
            and_then(u32_at(content, endianness, offset + 8), |element_count: u32|
                Ok(Data { element_tid, index_tid, element_count }))))
}

impl Data {
    /// The size of the extra data
    pub fn size(type_header: &Header) -> (size: usize)
        ensures
            size == tail_size(*type_header),
    {
        ARRAY_DATA_SIZE
    }

    /// Creates a new `Data` object
    pub fn new<R: Readable>(
        reader: &mut Reader<R>,
        file_header: &FileHeader,
        type_header: &Header,
    ) -> (r: Result<Self, Error>)
        ensures
            final(reader).same_source(old(reader)),
            view_agrees(
                r,
                data_at(
                    old(reader).content(),
                    old(reader).endianness,
                    *file_header,
                    old(reader).offset as int,
                    *type_header,
                ),
                old(reader).reliable(),
            ),
            r is Ok ==> final(reader).offset == old(reader).offset + tail_size(*type_header),
    {
        let element_tid = reader.u32()?;
        let index_tid = reader.u32()?;
        let element_count = reader.u32()?;
        Ok(Data { element_tid, index_tid, element_count })
    }
}

/// The `Array` type whose tail lies at `offset` of `content`, for the header that
/// stands before it. The header has to be of the kind `Array` and the tail has
/// to lie inside the type section.
pub open spec fn array_at(
    content: Seq<u8>,
    endianness: Endianness,
    file_header: FileHeader,
    offset: int,
    type_header: Header,
) -> Result<TypeRecord<Data>, ErrorKind> {
    if type_header.kind != Kind::Array {
        Err(ErrorKind::InvalidBTFKind)
    } else {
        and_then(tail_fits(file_header, offset, tail_size(type_header)), |fits: ()|
            and_then(data_at(content, endianness, file_header, offset, type_header), |data: Data|
                Ok(TypeRecord { header: type_header, data })))
    }
}

/// Represents an `Array` type.
#[derive(Debug)]
pub struct Array {
    /// Type header
    pub type_header: Header,
    /// Type data
    pub data: Data,
}

impl View for Array {
    type V = TypeRecord<Data>;

    open spec fn view(&self) -> TypeRecord<Data> {
        TypeRecord { header: self.type_header, data: self.data@ }
    }
}

impl Clone for Array {
    fn clone(&self) -> (copy: Self)
        ensures
            copy@ == self@,
    {
        Array { type_header: self.type_header, data: self.data.clone() }
    }
}

impl Type for Array {
    open spec fn type_header(&self) -> Header {
        self.type_header
    }

    /// Returns the type header
    fn header(&self) -> (header: &Header) {
        &self.type_header
    }
}

impl Array {
    /// Creates a new `Array` object from the given data
    pub fn create(
        type_header: Header,
        element_tid: u32,
        index_tid: u32,
        element_count: u32,
    ) -> (r: Self)
        ensures
            r.type_header == type_header,
            r.data == (Data { element_tid, index_tid, element_count }),
    {
        Self { type_header, data: Data { element_tid, index_tid, element_count } }
    }

    /// Creates a new `Array` object
    pub fn new<R: Readable>(
        reader: &mut Reader<R>,
        file_header: &FileHeader,
        type_header: Header,
    ) -> (r: Result<Self, Error>)
        ensures
            final(reader).same_source(old(reader)),
            view_agrees(
                r,
                array_at(
                    old(reader).content(),
                    old(reader).endianness,
                    *file_header,
                    old(reader).offset as int,
                    type_header,
                ),
                old(reader).reliable(),
            ),
            r is Ok ==> final(reader).offset == old(reader).offset + tail_size(type_header),
    {
        match type_header.kind() {
            Kind::Array => {},
            _ => {
                return Err(Error::new(ErrorKind::InvalidBTFKind, "Invalid type kind: expected Array"));
            },
        }
        check_tail(file_header, reader.offset(), Data::size(&type_header))?;
        let data = Data::new(reader, file_header, &type_header)?;
        Ok(Self { type_header, data })
    }

    /// Returns the `element_tid` field of the type
    pub fn element_tid(&self) -> (element_tid: &u32)
        ensures
            *element_tid == self.data.element_tid,
    {
        &self.data.element_tid
    }

    /// Returns the element type id, the `element_tid` field of the type
    pub fn element_type_id(&self) -> (element_type_id: &u32)
        ensures
            *element_type_id == self.data.element_tid,
    {
        &self.data.element_tid
    }

    /// Returns the `index_tid` field of the type
    pub fn index_tid(&self) -> (index_tid: &u32)
        ensures
            *index_tid == self.data.index_tid,
    {
        &self.data.index_tid
    }

    /// Returns the index type id, the `index_tid` field of the type
    pub fn index_type_id(&self) -> (index_type_id: &u32)
        ensures
            *index_type_id == self.data.index_tid,
    {
        &self.data.index_tid
    }

    /// Returns the `element_count` field of the type
    pub fn element_count(&self) -> (element_count: &u32)
        ensures
            *element_count == self.data.element_count,
    {
        &self.data.element_count
    }
}

} // verus!
