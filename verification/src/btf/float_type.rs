use crate::btf::error::{and_then, Error, ErrorKind};
use crate::btf::file_header::FileHeader;
use crate::btf::header::Header;
use crate::btf::kind::Kind;
use crate::btf::model::{check_tail, clone_name, name_view, tail_fits, view_agrees, TypeRecord};
use crate::btf::readable::Readable;
use crate::btf::string::{name_at, parse_name};
use crate::btf::type_trait::Type;
use crate::utils::reader::{Endianness, Reader};
use vstd::prelude::*;

verus! {

/// Float data
#[derive(Debug)]
pub struct Data {
    /// The float type name
    pub name: Option<String>,
    /// The size, in bytes, of the float type
    pub size: usize,
}

/// What a `Float` type holds besides its header.
pub struct DataModel {
    /// The float type name
    pub name: Option<Seq<char>>,
    /// The size, in bytes, of the float type
    pub size: usize,
}

impl View for Data {
    type V = DataModel;

    open spec fn view(&self) -> DataModel {
        DataModel {
            name: name_view(self.name),
            size: self.size,
        }
    }
}

impl Clone for Data {
    fn clone(&self) -> (copy: Self)
        ensures
            copy@ == self@,
    {
        Data {
            name: clone_name(&self.name),
            size: self.size,
        }
    }
}

/// The number of bytes in the tail of a `Float` type.
pub open spec fn tail_size(type_header: Header) -> int {
    0
}

/// The data of a `Float` type: the name at the name offset of its header, and the size in
/// its header.
pub open spec fn data_at(
    content: Seq<u8>,
    endianness: Endianness,
    file_header: FileHeader,
    offset: int,
    type_header: Header,
) -> Result<DataModel, ErrorKind> {
    and_then(name_at(content, endianness, file_header, type_header.name_offset), |name: Option<Seq<char>>|
        Ok(DataModel { name, size: type_header.size_or_type as usize }))
}

impl Data {
    /// The size of the extra data
    pub fn size(type_header: &Header) -> (size: usize)
        ensures
            size == tail_size(*type_header),
    {
        0
    }

    /// Creates a new `Data` object
    pub fn new<R: Readable>(
        reader: &mut Reader<R>,
        file_header: &FileHeader,
        type_header: &Header,
    ) -> (r: Result<Self, Error>)
        ensures
            final(reader).same_source(old(reader)),
            view_agrees(
                r,
                data_at(
                    old(reader).content(),
                    old(reader).endianness,
                    *file_header,
                    old(reader).offset as int,
                    *type_header,
                ),
                old(reader).reliable(),
            ),
            r is Ok ==> final(reader).offset == old(reader).offset + tail_size(*type_header),
    {
        let name = parse_name(reader, file_header, type_header.name_offset())?;
        Ok(Self { name, size: type_header.size_or_type() as usize })
    }
}

/// The `Float` type whose tail lies at `offset` of `content`, for the header that
/// stands before it. The header has to be of the kind `Float` and the tail has
/// to lie inside the type section.
pub open spec fn float_at(
    content: Seq<u8>,
    endianness: Endianness,
    file_header: FileHeader,
    offset: int,
    type_header: Header,
) -> Result<TypeRecord<DataModel>, ErrorKind> {
    if type_header.kind != Kind::Float {
        Err(ErrorKind::InvalidBTFKind)
    } else {
        and_then(tail_fits(file_header, offset, tail_size(type_header)), |fits: ()|
            and_then(data_at(content, endianness, file_header, offset, type_header), |data: DataModel|
                Ok(TypeRecord { header: type_header, data })))
    }
}

/// Represents a `Float` type.
#[derive(Debug)]
pub struct Float {
    /// Type header
    pub type_header: Header,
    /// Type data
    pub data: Data,
}

impl View for Float {
    type V = TypeRecord<DataModel>;

    open spec fn view(&self) -> TypeRecord<DataModel> {
        TypeRecord { header: self.type_header, data: self.data@ }
    }
}

impl Clone for Float {
    fn clone(&self) -> (copy: Self)
        ensures
            copy@ == self@,
    {
        Float { type_header: self.type_header, data: self.data.clone() }
    }
}

impl Type for Float {
    open spec fn type_header(&self) -> Header {
        self.type_header
    }

    /// Returns the type header
    fn header(&self) -> (header: &Header) {
        &self.type_header
    }
}

impl Float {
    /// Creates a new `Float` object from the given data
    pub fn create(
        type_header: Header,
        name: Option<String>,
        size: usize,
    ) -> (r: Self)
        ensures
            r.type_header == type_header,
            r.data == (Data { name, size }),
    {
        Self { type_header, data: Data { name, size } }
    }

    /// Creates a new `Float` object
    pub fn new<R: Readable>(
        reader: &mut Reader<R>,
        file_header: &FileHeader,
        type_header: Header,
    ) -> (r: Result<Self, Error>)
        ensures
            final(reader).same_source(old(reader)),
            view_agrees(
                r,
                float_at(
                    old(reader).content(),
                    old(reader).endianness,
                    *file_header,
                    old(reader).offset as int,
                    type_header,
                ),
                old(reader).reliable(),
            ),
            r is Ok ==> final(reader).offset == old(reader).offset + tail_size(type_header),
    {
        match type_header.kind() {
            Kind::Float => {},
            _ => {
                return Err(Error::new(ErrorKind::InvalidBTFKind, "Invalid type kind: expected Float"));
            },
        }
        check_tail(file_header, reader.offset(), Data::size(&type_header))?;
        let data = Data::new(reader, file_header, &type_header)?;
        Ok(Self { type_header, data })
    }

    /// Returns the `name` field of the type
    pub fn name(&self) -> (name: &Option<String>)
        ensures
            *name == self.data.name,
    {
        &self.data.name
    }

    /// Returns the `size` field of the type
    pub fn size(&self) -> (size: &usize)
        ensures
            *size == self.data.size,
    {
        &self.data.size
    }
}

} // verus!
