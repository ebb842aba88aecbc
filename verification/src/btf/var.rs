use crate::btf::error::{and_then, Error, ErrorKind};
use crate::btf::file_header::FileHeader;
use crate::btf::header::Header;
use crate::btf::kind::Kind;
use crate::btf::model::{check_tail, clone_name, name_view, tail_fits, view_agrees, TypeRecord};
use crate::btf::readable::Readable;
use crate::btf::string::{name_at, parse_name};
use crate::btf::type_trait::Type;
use crate::utils::reader::{u32_at, Endianness, Reader};
use vstd::prelude::*;

verus! {

/// The size of the extra data
pub const VAR_DATA_SIZE: usize = 4;

/// The linkage type of the var
#[derive(Debug, Clone, Copy, PartialEq, Eq, Structural)]
pub enum LinkageType {
    /// Visible in its own file only
    Static,
    /// Visible everywhere
    Global,
}

/// The linkage type that a raw linkage field stands for: static where it is
/// zero, else global.
pub open spec fn linkage_type_of(linkage: u32) -> LinkageType {
    if linkage == 0 {
        LinkageType::Static
    } else {
        LinkageType::Global
    }
}

/// Var data
#[derive(Debug)]
pub struct Data {
    /// The var name
    pub name: Option<String>,
    /// The type id of the var
    pub tid: u32,
    /// The raw linkage field from the type section
    pub linkage: u32,
    /// Linkage type
    pub linkage_type: LinkageType,
}

/// What a `Var` type holds besides its header.
pub struct DataModel {
    /// The var name
    pub name: Option<Seq<char>>,
    /// The type id of the var
    pub tid: u32,
    /// The raw linkage field from the type section
    pub linkage: u32,
    /// Linkage type
    pub linkage_type: LinkageType,
}

impl View for Data {
    type V = DataModel;

    open spec fn view(&self) -> DataModel {
        DataModel {
            name: name_view(self.name),
            tid: self.tid,
            linkage: self.linkage,
            linkage_type: self.linkage_type,
        }
    }
}

impl Clone for Data {
    fn clone(&self) -> (copy: Self)
        ensures
            copy@ == self@,
    {
        Data {
            name: clone_name(&self.name),
            tid: self.tid,
            linkage: self.linkage,
            linkage_type: self.linkage_type,
        }
    }
}

/// The number of bytes in the tail of a `Var` type.
pub open spec fn tail_size(type_header: Header) -> int {
    VAR_DATA_SIZE as int
}

/// The data of the `Var` type whose tail, the linkage of four bytes, lies at `offset` of
/// `content`.
pub open spec fn data_at(
    content: Seq<u8>,
    endianness: Endianness,
    file_header: FileHeader,
    offset: int,
    type_header: Header,
) -> Result<DataModel, ErrorKind> {
    and_then(u32_at(content, endianness, offset), |linkage: u32|
        and_then(name_at(content, endianness, file_header, type_header.name_offset), |name: Option<Seq<char>>|
            Ok(
                DataModel { name, tid: type_header.size_or_type, linkage, linkage_type: linkage_type_of(linkage) },
            )))
}

impl Data {
    /// The size of the extra data
    pub fn size(type_header: &Header) -> (size: usize)
        ensures
            size == tail_size(*type_header),
    {
        VAR_DATA_SIZE
    }

    /// Creates a new `Data` object
    pub fn new<R: Readable>(
        reader: &mut Reader<R>,
        file_header: &FileHeader,
        type_header: &Header,
    ) -> (r: Result<Self, Error>)
        ensures
            final(reader).same_source(old(reader)),
            view_agrees(
                r,
                data_at(
                    old(reader).content(),
                    old(reader).endianness,
                    *file_header,
                    old(reader).offset as int,
                    *type_header,
                ),
                old(reader).reliable(),
            ),
            r is Ok ==> final(reader).offset == old(reader).offset + tail_size(*type_header),
    {
        let linkage = reader.u32()?;
        let linkage_type = match linkage {
            0 => LinkageType::Static,
            _ => LinkageType::Global,
        };
        let name = parse_name(reader, file_header, type_header.name_offset())?;
        Ok(Self { name, tid: type_header.size_or_type(), linkage, linkage_type })
    }
}

/// The `Var` type whose tail lies at `offset` of `content`, for the header that
/// stands before it. The header has to be of the kind `Var` and the tail has
/// to lie inside the type section.
pub open spec fn var_at(
    content: Seq<u8>,
    endianness: Endianness,
    file_header: FileHeader,
    offset: int,
    type_header: Header,
) -> Result<TypeRecord<DataModel>, ErrorKind> {
    if type_header.kind != Kind::Var {
        Err(ErrorKind::InvalidBTFKind)
    } else {
        and_then(tail_fits(file_header, offset, tail_size(type_header)), |fits: ()|
            and_then(data_at(content, endianness, file_header, offset, type_header), |data: DataModel|
                Ok(TypeRecord { header: type_header, data })))
    }
}

/// Represents a `Var` type.
#[derive(Debug)]
pub struct Var {
    /// Type header
    pub type_header: Header,
    /// Type data
    pub data: Data,
}

impl View for Var {
    type V = TypeRecord<DataModel>;

    open spec fn view(&self) -> TypeRecord<DataModel> {
        TypeRecord { header: self.type_header, data: self.data@ }
    }
}

impl Clone for Var {
    fn clone(&self) -> (copy: Self)
        ensures
            copy@ == self@,
    {
        Var { type_header: self.type_header, data: self.data.clone() }
    }
}

impl Type for Var {
    open spec fn type_header(&self) -> Header {
        self.type_header
    }

    /// Returns the type header
    fn header(&self) -> (header: &Header) {
        &self.type_header
    }
}

impl Var {
    /// Creates a new `Var` object from the given data
    pub fn create(
        type_header: Header,
        name: Option<String>,
        tid: u32,
        linkage: u32,
        linkage_type: LinkageType,
    ) -> (r: Self)
        ensures
            r.type_header == type_header,
            r.data == (Data { name, tid, linkage, linkage_type }),
    {
        Self { type_header, data: Data { name, tid, linkage, linkage_type } }
    }

    /// Creates a new `Var` object
    pub fn new<R: Readable>(
        reader: &mut Reader<R>,
        file_header: &FileHeader,
        type_header: Header,
    ) -> (r: Result<Self, Error>)
        ensures
            final(reader).same_source(old(reader)),
            view_agrees(
                r,
                var_at(
                    old(reader).content(),
                    old(reader).endianness,
                    *file_header,
                    old(reader).offset as int,
                    type_header,
                ),
                old(reader).reliable(),
            ),
            r is Ok ==> final(reader).offset == old(reader).offset + tail_size(type_header),
    {
        match type_header.kind() {
            Kind::Var => {},
            _ => {
                return Err(Error::new(ErrorKind::InvalidBTFKind, "Invalid type kind: expected Var"));
            },
        }
        check_tail(file_header, reader.offset(), Data::size(&type_header))?;
        let data = Data::new(reader, file_header, &type_header)?;
        Ok(Self { type_header, data })
    }

    /// Returns the `name` field of the type
    pub fn name(&self) -> (name: &Option<String>)
        ensures
            *name == self.data.name,
    {
        &self.data.name
    }

    /// Returns the `tid` field of the type
    pub fn tid(&self) -> (tid: &u32)
        ensures
            *tid == self.data.tid,
    {
        &self.data.tid
    }

    /// Returns the type id, the `tid` field of the type
    pub fn type_id(&self) -> (type_id: &u32)
        ensures
            *type_id == self.data.tid,
    {
        &self.data.tid
    }

    /// Returns the `linkage` field of the type
    pub fn linkage(&self) -> (linkage: &u32)
        ensures
            *linkage == self.data.linkage,
    {
        &self.data.linkage
    }

    /// Returns the `linkage_type` field of the type
    pub fn linkage_type(&self) -> (linkage_type: &LinkageType)
        ensures
            *linkage_type == self.data.linkage_type,
    {
        &self.data.linkage_type
    }
}

} // verus!
