//! A parser for BPF Type Format (BTF) data, and the structural queries that
//! the decoded type graph answers: lookup by name or id, the size of a type,
//! and the offset of a member named by a path such as `d_name.hash_len`.

pub mod btf;
pub mod utils;

pub use btf::array::Array;
pub use btf::const_type::Const;
pub use btf::data_sec::DataSec;
pub use btf::decl_tag::DeclTag;
pub use btf::enum32::{
    Enum, IntegerValue as Integer32Value, NamedValue as NamedValue32, NamedValueList as NamedValue32List,
};
pub use btf::enum64::{
    Enum64, IntegerValue as Integer64Value, NamedValue as NamedValue64, NamedValueList as NamedValue64List,
};
pub use btf::error::{Error, ErrorKind};
pub use btf::float_type::Float;
pub use btf::func::Func;
pub use btf::func_proto::FuncProto;
pub use btf::fwd::Fwd;
pub use btf::int_type::Int;
pub use btf::kind::Kind;
pub use btf::offset::Offset;
pub use btf::ptr::Ptr;
pub use btf::readable::Readable;
pub use btf::restrict::Restrict;
pub use btf::struct_union::{Struct, Union};
pub use btf::type_information::TypeInformation;
pub use btf::type_tag::TypeTag;
pub use btf::type_trait::Type;
pub use btf::type_variant::TypeVariant;
pub use btf::typedef::Typedef;
pub use btf::var::Var;
pub use btf::volatile::Volatile;
