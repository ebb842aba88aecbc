use crate::btf::error::{and_then, Error, ErrorKind};
use crate::btf::file_header::FileHeader;
use crate::btf::header::Header;
use crate::btf::kind::Kind;
use crate::btf::model::{clone_name, name_view, view_agrees, TypeRecord};
use crate::btf::readable::Readable;
use crate::utils::reader::{Endianness, Reader};
use crate::btf::array::Array;
use crate::btf::const_type::Const;
use crate::btf::data_sec::DataSec;
use crate::btf::decl_tag::DeclTag;
use crate::btf::enum32::Enum;
use crate::btf::enum64::Enum64;
use crate::btf::float_type::Float;
use crate::btf::func::Func;
use crate::btf::func_proto::FuncProto;
use crate::btf::fwd::Fwd;
use crate::btf::int_type::Int;
use crate::btf::ptr::Ptr;
use crate::btf::restrict::Restrict;
use crate::btf::struct_union::{Struct, Union};
use crate::btf::type_tag::TypeTag;
use crate::btf::typedef::Typedef;
use crate::btf::var::Var;
use crate::btf::volatile::Volatile;
use vstd::prelude::*;
use vstd::string::StringExecFns;

verus! {

/// An enum representing a BTF type
#[derive(Debug)]
pub enum TypeVariant {
    /// The void type
    Void,
    /// An integer type
    Int(Int),
    /// A typedef type
    Typedef(Typedef),
    /// A 32-bit enum type
    Enum(Enum),
    /// A pointer type
    Ptr(Ptr),
    /// A const type
    Const(Const),
    /// A volatile type
    Volatile(Volatile),
    /// An array type
    Array(Array),
    /// A function prototype
    FuncProto(FuncProto),
    /// A struct type
    Struct(Struct),
    /// A union type
    Union(Union),
    /// A forward declaration type
    Fwd(Fwd),
    /// A variable declaration
    Var(Var),
    /// A 64-bit enum type
    Enum64(Enum64),
    /// A function declaration
    Func(Func),
    /// A float type
    Float(Float),
    /// A restrict type
    Restrict(Restrict),
    /// A data section decl
    DataSec(DataSec),
    /// A type tag
    TypeTag(TypeTag),
    /// A decl tag
    DeclTag(DeclTag),
}

/// What a type is: the void type, or the record of one of the nineteen
/// kinds.
pub enum TypeModel {
    /// The void type
    Void,
    /// An integer type
    Int(TypeRecord<crate::btf::int_type::DataModel>),
    /// A typedef type
    Typedef(TypeRecord<crate::btf::typedef::DataModel>),
    /// A 32-bit enum type
    Enum(TypeRecord<crate::btf::enum32::DataModel>),
    /// A pointer type
    Ptr(TypeRecord<crate::btf::ptr::Data>),
    /// A const type
    Const(TypeRecord<crate::btf::const_type::Data>),
    /// A volatile type
    Volatile(TypeRecord<crate::btf::volatile::Data>),
    /// An array type
    Array(TypeRecord<crate::btf::array::Data>),
    /// A function prototype
    FuncProto(TypeRecord<crate::btf::func_proto::DataModel>),
    /// A struct type
    Struct(TypeRecord<crate::btf::struct_union::DataModel>),
    /// A union type
    Union(TypeRecord<crate::btf::struct_union::DataModel>),
    /// A forward declaration type
    Fwd(TypeRecord<crate::btf::fwd::DataModel>),
    /// A variable declaration
    Var(TypeRecord<crate::btf::var::DataModel>),
    /// A 64-bit enum type
    Enum64(TypeRecord<crate::btf::enum64::DataModel>),
    /// A function declaration
    Func(TypeRecord<crate::btf::func::DataModel>),
    /// A float type
    Float(TypeRecord<crate::btf::float_type::DataModel>),
    /// A restrict type
    Restrict(TypeRecord<crate::btf::restrict::Data>),
    /// A data section decl
    DataSec(TypeRecord<crate::btf::data_sec::DataModel>),
    /// A type tag
    TypeTag(TypeRecord<crate::btf::type_tag::DataModel>),
    /// A decl tag
    DeclTag(TypeRecord<crate::btf::decl_tag::DataModel>),
}

impl View for TypeVariant {
    type V = TypeModel;

    open spec fn view(&self) -> TypeModel {
        match self {
            TypeVariant::Void => TypeModel::Void,
            TypeVariant::Int(inner) => TypeModel::Int(inner@),
            TypeVariant::Typedef(inner) => TypeModel::Typedef(inner@),
            TypeVariant::Enum(inner) => TypeModel::Enum(inner@),
            TypeVariant::Ptr(inner) => TypeModel::Ptr(inner@),
            TypeVariant::Const(inner) => TypeModel::Const(inner@),
            TypeVariant::Volatile(inner) => TypeModel::Volatile(inner@),
            TypeVariant::Array(inner) => TypeModel::Array(inner@),
            TypeVariant::FuncProto(inner) => TypeModel::FuncProto(inner@),
            TypeVariant::Struct(inner) => TypeModel::Struct(inner@),
            TypeVariant::Union(inner) => TypeModel::Union(inner@),
            TypeVariant::Fwd(inner) => TypeModel::Fwd(inner@),
            TypeVariant::Var(inner) => TypeModel::Var(inner@),
            TypeVariant::Enum64(inner) => TypeModel::Enum64(inner@),
            TypeVariant::Func(inner) => TypeModel::Func(inner@),
            TypeVariant::Float(inner) => TypeModel::Float(inner@),
            TypeVariant::Restrict(inner) => TypeModel::Restrict(inner@),
            TypeVariant::DataSec(inner) => TypeModel::DataSec(inner@),
            TypeVariant::TypeTag(inner) => TypeModel::TypeTag(inner@),
            TypeVariant::DeclTag(inner) => TypeModel::DeclTag(inner@),
        }
    }
}

impl Clone for TypeVariant {
    fn clone(&self) -> (copy: Self)
        ensures
            copy@ == self@,
    {
        match self {
            TypeVariant::Void => TypeVariant::Void,
            TypeVariant::Int(inner) => TypeVariant::Int(inner.clone()),
            TypeVariant::Typedef(inner) => TypeVariant::Typedef(inner.clone()),
            TypeVariant::Enum(inner) => TypeVariant::Enum(inner.clone()),
            TypeVariant::Ptr(inner) => TypeVariant::Ptr(inner.clone()),
            TypeVariant::Const(inner) => TypeVariant::Const(inner.clone()),
            TypeVariant::Volatile(inner) => TypeVariant::Volatile(inner.clone()),
            TypeVariant::Array(inner) => TypeVariant::Array(inner.clone()),
            TypeVariant::FuncProto(inner) => TypeVariant::FuncProto(inner.clone()),
            TypeVariant::Struct(inner) => TypeVariant::Struct(inner.clone()),
            TypeVariant::Union(inner) => TypeVariant::Union(inner.clone()),
            TypeVariant::Fwd(inner) => TypeVariant::Fwd(inner.clone()),
            TypeVariant::Var(inner) => TypeVariant::Var(inner.clone()),
            TypeVariant::Enum64(inner) => TypeVariant::Enum64(inner.clone()),
            TypeVariant::Func(inner) => TypeVariant::Func(inner.clone()),
            TypeVariant::Float(inner) => TypeVariant::Float(inner.clone()),
            TypeVariant::Restrict(inner) => TypeVariant::Restrict(inner.clone()),
            TypeVariant::DataSec(inner) => TypeVariant::DataSec(inner.clone()),
            TypeVariant::TypeTag(inner) => TypeVariant::TypeTag(inner.clone()),
            TypeVariant::DeclTag(inner) => TypeVariant::DeclTag(inner.clone()),
        }
    }
}

impl TypeModel {
    /// The header of the type; the void type has none.
    pub open spec fn header(self) -> Option<Header> {
        match self {
            TypeModel::Void => None,
            TypeModel::Int(record) => Some(record.header),
            TypeModel::Typedef(record) => Some(record.header),
            TypeModel::Enum(record) => Some(record.header),
            TypeModel::Ptr(record) => Some(record.header),
            TypeModel::Const(record) => Some(record.header),
            TypeModel::Volatile(record) => Some(record.header),
            TypeModel::Array(record) => Some(record.header),
            TypeModel::FuncProto(record) => Some(record.header),
            TypeModel::Struct(record) => Some(record.header),
            TypeModel::Union(record) => Some(record.header),
            TypeModel::Fwd(record) => Some(record.header),
            TypeModel::Var(record) => Some(record.header),
            TypeModel::Enum64(record) => Some(record.header),
            TypeModel::Func(record) => Some(record.header),
            TypeModel::Float(record) => Some(record.header),
            TypeModel::Restrict(record) => Some(record.header),
            TypeModel::DataSec(record) => Some(record.header),
            TypeModel::TypeTag(record) => Some(record.header),
            TypeModel::DeclTag(record) => Some(record.header),
        }
    }

    /// The name that the type goes by: `void` for the void type, and the
    /// name, where it has one, of a type of a kind that is named. Pointers,
    /// consts, volatiles, restricts, arrays and function prototypes have
    /// no name.
    pub open spec fn name(self) -> Option<Seq<char>> {
        match self {
            TypeModel::Void => Some("void"@),
            TypeModel::Int(record) => record.data.name,
            TypeModel::Typedef(record) => record.data.name,
            TypeModel::Enum(record) => record.data.name,
            TypeModel::Struct(record) => record.data.name,
            TypeModel::Union(record) => record.data.name,
            TypeModel::Fwd(record) => record.data.name,
            TypeModel::Var(record) => record.data.name,
            TypeModel::Enum64(record) => record.data.name,
            TypeModel::Func(record) => record.data.name,
            TypeModel::Float(record) => record.data.name,
            TypeModel::DataSec(record) => record.data.name,
            TypeModel::TypeTag(record) => record.data.name,
            TypeModel::DeclTag(record) => record.data.name,
            TypeModel::Ptr(_)
            | TypeModel::Const(_)
            | TypeModel::Volatile(_)
            | TypeModel::Array(_)
            | TypeModel::FuncProto(_)
            | TypeModel::Restrict(_) => None,
        }
    }
}

/// Whether types of this kind are named.
pub open spec fn kind_is_named(kind: Kind) -> bool {
    !(kind is Ptr || kind is Const || kind is Volatile || kind is Restrict || kind is Array || kind is FuncProto)
}

/// The number of bytes in the tail of a type with the given header, by the
/// kind `kind`.
pub open spec fn tail_size(kind: Kind, type_header: Header) -> int {
    match kind {
        Kind::Int => crate::btf::int_type::tail_size(type_header),
        Kind::Typedef => crate::btf::typedef::tail_size(type_header),
        Kind::Enum => crate::btf::enum32::tail_size(type_header),
        Kind::Ptr => crate::btf::ptr::tail_size(type_header),
        Kind::Const => crate::btf::const_type::tail_size(type_header),
        Kind::Volatile => crate::btf::volatile::tail_size(type_header),
        Kind::Array => crate::btf::array::tail_size(type_header),
        Kind::FuncProto => crate::btf::func_proto::tail_size(type_header),
        Kind::Struct => crate::btf::struct_union::tail_size(type_header),
        Kind::Union => crate::btf::struct_union::tail_size(type_header),
        Kind::Fwd => crate::btf::fwd::tail_size(type_header),
        Kind::Var => crate::btf::var::tail_size(type_header),
        Kind::Enum64 => crate::btf::enum64::tail_size(type_header),
        Kind::Func => crate::btf::func::tail_size(type_header),
        Kind::Float => crate::btf::float_type::tail_size(type_header),
        Kind::Restrict => crate::btf::restrict::tail_size(type_header),
        Kind::DataSec => crate::btf::data_sec::tail_size(type_header),
        Kind::TypeTag => crate::btf::type_tag::tail_size(type_header),
        Kind::DeclTag => crate::btf::decl_tag::tail_size(type_header),
    }
}

/// The type of the kind `kind` with the given header whose tail lies at
/// `offset` of `content`.
pub open spec fn type_at(
    content: Seq<u8>,
    endianness: Endianness,
    file_header: FileHeader,
    offset: int,
    kind: Kind,
    type_header: Header,
) -> Result<TypeModel, ErrorKind> {
    match kind {
        Kind::Int => and_then(
            crate::btf::int_type::int_at(content, endianness, file_header, offset, type_header),
            |record: TypeRecord<crate::btf::int_type::DataModel>| Ok(TypeModel::Int(record)),
        ),
        Kind::Typedef => and_then(
            crate::btf::typedef::typedef_at(content, endianness, file_header, offset, type_header),
            |record: TypeRecord<crate::btf::typedef::DataModel>| Ok(TypeModel::Typedef(record)),
        ),
        Kind::Enum => and_then(
            crate::btf::enum32::enum32_at(content, endianness, file_header, offset, type_header),
            |record: TypeRecord<crate::btf::enum32::DataModel>| Ok(TypeModel::Enum(record)),
        ),
        Kind::Ptr => and_then(
            crate::btf::ptr::ptr_at(content, endianness, file_header, offset, type_header),
            |record: TypeRecord<crate::btf::ptr::Data>| Ok(TypeModel::Ptr(record)),
        ),
        Kind::Const => and_then(
            crate::btf::const_type::const_at(content, endianness, file_header, offset, type_header),
            |record: TypeRecord<crate::btf::const_type::Data>| Ok(TypeModel::Const(record)),
        ),
        Kind::Volatile => and_then(
            crate::btf::volatile::volatile_at(content, endianness, file_header, offset, type_header),
            |record: TypeRecord<crate::btf::volatile::Data>| Ok(TypeModel::Volatile(record)),
        ),
        Kind::Array => and_then(
            crate::btf::array::array_at(content, endianness, file_header, offset, type_header),
            |record: TypeRecord<crate::btf::array::Data>| Ok(TypeModel::Array(record)),
        ),
        Kind::FuncProto => and_then(
            crate::btf::func_proto::func_proto_at(content, endianness, file_header, offset, type_header),
            |record: TypeRecord<crate::btf::func_proto::DataModel>| Ok(TypeModel::FuncProto(record)),
        ),
        Kind::Struct => and_then(
            crate::btf::struct_union::struct_at(content, endianness, file_header, offset, type_header),
            |record: TypeRecord<crate::btf::struct_union::DataModel>| Ok(TypeModel::Struct(record)),
        ),
        Kind::Union => and_then(
            crate::btf::struct_union::union_at(content, endianness, file_header, offset, type_header),
            |record: TypeRecord<crate::btf::struct_union::DataModel>| Ok(TypeModel::Union(record)),
        ),
        Kind::Fwd => and_then(
            crate::btf::fwd::fwd_at(content, endianness, file_header, offset, type_header),
            |record: TypeRecord<crate::btf::fwd::DataModel>| Ok(TypeModel::Fwd(record)),
        ),
        Kind::Var => and_then(
            crate::btf::var::var_at(content, endianness, file_header, offset, type_header),
            |record: TypeRecord<crate::btf::var::DataModel>| Ok(TypeModel::Var(record)),
        ),
        Kind::Enum64 => and_then(
            crate::btf::enum64::enum64_at(content, endianness, file_header, offset, type_header),
            |record: TypeRecord<crate::btf::enum64::DataModel>| Ok(TypeModel::Enum64(record)),
        ),
        Kind::Func => and_then(
            crate::btf::func::func_at(content, endianness, file_header, offset, type_header),
            |record: TypeRecord<crate::btf::func::DataModel>| Ok(TypeModel::Func(record)),
        ),
        Kind::Float => and_then(
            crate::btf::float_type::float_at(content, endianness, file_header, offset, type_header),
            |record: TypeRecord<crate::btf::float_type::DataModel>| Ok(TypeModel::Float(record)),
        ),
        Kind::Restrict => and_then(
            crate::btf::restrict::restrict_at(content, endianness, file_header, offset, type_header),
            |record: TypeRecord<crate::btf::restrict::Data>| Ok(TypeModel::Restrict(record)),
        ),
        Kind::DataSec => and_then(
            crate::btf::data_sec::data_sec_at(content, endianness, file_header, offset, type_header),
            |record: TypeRecord<crate::btf::data_sec::DataModel>| Ok(TypeModel::DataSec(record)),
        ),
        Kind::TypeTag => and_then(
            crate::btf::type_tag::type_tag_at(content, endianness, file_header, offset, type_header),
            |record: TypeRecord<crate::btf::type_tag::DataModel>| Ok(TypeModel::TypeTag(record)),
        ),
        Kind::DeclTag => and_then(
            crate::btf::decl_tag::decl_tag_at(content, endianness, file_header, offset, type_header),
            |record: TypeRecord<crate::btf::decl_tag::DataModel>| Ok(TypeModel::DeclTag(record)),
        ),
    }
}

/// Returns the name of the given type
pub fn get_type_enum_value_name(type_var: &TypeVariant) -> (name: Option<String>)
    ensures
        name_view(name) == type_var@.name(),
{
    match type_var {
        TypeVariant::Void => Some(String::from_str("void")),
        TypeVariant::Int(inner) => clone_name(inner.name()),
        TypeVariant::Typedef(inner) => clone_name(inner.name()),
        TypeVariant::Enum(inner) => clone_name(inner.name()),
        TypeVariant::Struct(inner) => clone_name(inner.name()),
        TypeVariant::Union(inner) => clone_name(inner.name()),
        TypeVariant::Fwd(inner) => clone_name(inner.name()),
        TypeVariant::Var(inner) => clone_name(inner.name()),
        TypeVariant::Enum64(inner) => clone_name(inner.name()),
        TypeVariant::Func(inner) => clone_name(inner.name()),
        TypeVariant::Float(inner) => clone_name(inner.name()),
        TypeVariant::DataSec(inner) => clone_name(inner.name()),
        TypeVariant::TypeTag(inner) => clone_name(inner.name()),
        TypeVariant::DeclTag(inner) => clone_name(inner.name()),
        TypeVariant::Ptr(_)
        | TypeVariant::Const(_)
        | TypeVariant::Volatile(_)
        | TypeVariant::Array(_)
        | TypeVariant::FuncProto(_)
        | TypeVariant::Restrict(_) => None,
    }
}

/// Creates a new `TypeVariant` object based on the given kind
pub fn parse_type<R: Readable>(
    kind: Kind,
    reader: &mut Reader<R>,
    file_header: &FileHeader,
    type_header: Header,
) -> (r: Result<TypeVariant, Error>)
    ensures
        final(reader).same_source(old(reader)),
        view_agrees(
            r,
            type_at(
                old(reader).content(),
                old(reader).endianness,
                *file_header,
                old(reader).offset as int,
                kind,
                type_header,
            ),
            old(reader).reliable(),
        ),
        r is Ok ==> final(reader).offset == old(reader).offset + tail_size(kind, type_header),
{
    Ok(
        match kind {
            Kind::Int => TypeVariant::Int(Int::new(reader, file_header, type_header)?),
            Kind::Typedef => TypeVariant::Typedef(Typedef::new(reader, file_header, type_header)?),
            Kind::Enum => TypeVariant::Enum(Enum::new(reader, file_header, type_header)?),
            Kind::Ptr => TypeVariant::Ptr(Ptr::new(reader, file_header, type_header)?),
            Kind::Const => TypeVariant::Const(Const::new(reader, file_header, type_header)?),
            Kind::Volatile => TypeVariant::Volatile(Volatile::new(reader, file_header, type_header)?),
            Kind::Array => TypeVariant::Array(Array::new(reader, file_header, type_header)?),
            Kind::FuncProto => TypeVariant::FuncProto(FuncProto::new(reader, file_header, type_header)?),
            Kind::Struct => TypeVariant::Struct(Struct::new(reader, file_header, type_header)?),
            Kind::Union => TypeVariant::Union(Union::new(reader, file_header, type_header)?),
            Kind::Fwd => TypeVariant::Fwd(Fwd::new(reader, file_header, type_header)?),
            Kind::Var => TypeVariant::Var(Var::new(reader, file_header, type_header)?),
            Kind::Enum64 => TypeVariant::Enum64(Enum64::new(reader, file_header, type_header)?),
            Kind::Func => TypeVariant::Func(Func::new(reader, file_header, type_header)?),
            Kind::Float => TypeVariant::Float(Float::new(reader, file_header, type_header)?),
            Kind::Restrict => TypeVariant::Restrict(Restrict::new(reader, file_header, type_header)?),
            Kind::DataSec => TypeVariant::DataSec(DataSec::new(reader, file_header, type_header)?),
            Kind::TypeTag => TypeVariant::TypeTag(TypeTag::new(reader, file_header, type_header)?),
            Kind::DeclTag => TypeVariant::DeclTag(DeclTag::new(reader, file_header, type_header)?),
        },
    )
}

} // verus!
