use crate::btf::error::{Error, ErrorKind};
use vstd::prelude::*;

verus! {

/// A BTF type kind
#[derive(Debug, Clone, Copy, PartialEq, Eq, Structural)]
pub enum Kind {
    /// Integer
    Int,
    /// Pointer
    Ptr,
    /// Array
    Array,
    /// Struct
    Struct,
    /// Union
    Union,
    /// Enumeration up to 32-bit values
    Enum,
    /// Forward
    Fwd,
    /// Typedef
    Typedef,
    /// Volatile
    Volatile,
    /// Const
    Const,
    /// Restrict
    Restrict,
    /// Function
    Func,
    /// Function Prototype
    FuncProto,
    /// Variable
    Var,
    /// Section
    DataSec,
    /// Floating point
    Float,
    /// Decl Tag
    DeclTag,
    /// Type Tag
    TypeTag,
    /// Enumeration up to 64-bit values
    Enum64,
}

/// The kind that a number of the type info word stands for: 1 to 19, in the
/// order of the variants.
pub open spec fn kind_of(value: u32) -> Result<Kind, ErrorKind> {
    if value == 1 {
        Ok(Kind::Int)
    }     else if value == 2 {
        Ok(Kind::Ptr)
    }     else if value == 3 {
        Ok(Kind::Array)
    }     else if value == 4 {
        Ok(Kind::Struct)
    }     else if value == 5 {
        Ok(Kind::Union)
    }     else if value == 6 {
        Ok(Kind::Enum)
    }     else if value == 7 {
        Ok(Kind::Fwd)
    }     else if value == 8 {
        Ok(Kind::Typedef)
    }     else if value == 9 {
        Ok(Kind::Volatile)
    }     else if value == 10 {
        Ok(Kind::Const)
    }     else if value == 11 {
        Ok(Kind::Restrict)
    }     else if value == 12 {
        Ok(Kind::Func)
    }     else if value == 13 {
        Ok(Kind::FuncProto)
    }     else if value == 14 {
        Ok(Kind::Var)
    }     else if value == 15 {
        Ok(Kind::DataSec)
    }     else if value == 16 {
        Ok(Kind::Float)
    }     else if value == 17 {
        Ok(Kind::DeclTag)
    }     else if value == 18 {
        Ok(Kind::TypeTag)
    }     else if value == 19 {
        Ok(Kind::Enum64)
    } else {
        Err(ErrorKind::InvalidBTFKind)
    }
}

impl Kind {
    /// Converts a `u32` into a `Kind` value
    pub fn new(value: u32) -> (r: Result<Kind, Error>)
        ensures
            match r {
                Ok(kind) => kind_of(value) == Ok::<Kind, ErrorKind>(kind),
                Err(e) => kind_of(value) is Err && e.kind == ErrorKind::InvalidBTFKind,
            },
    {
        match value {
            1 => Ok(Kind::Int),
            2 => Ok(Kind::Ptr),
            3 => Ok(Kind::Array),
            4 => Ok(Kind::Struct),
            5 => Ok(Kind::Union),
            6 => Ok(Kind::Enum),
            7 => Ok(Kind::Fwd),
            8 => Ok(Kind::Typedef),
            9 => Ok(Kind::Volatile),
            10 => Ok(Kind::Const),
            11 => Ok(Kind::Restrict),
            12 => Ok(Kind::Func),
            13 => Ok(Kind::FuncProto),
            14 => Ok(Kind::Var),
            15 => Ok(Kind::DataSec),
            16 => Ok(Kind::Float),
            17 => Ok(Kind::DeclTag),
            18 => Ok(Kind::TypeTag),
            19 => Ok(Kind::Enum64),
            _ => Err(
                Error::new(
                    ErrorKind::InvalidBTFKind,
                    crate::utils::text::with_number("Invalid BTF kind value: ", value as u64).as_str(),
                ),
            ),
        }
    }

    /// The number that stands for the kind in a type info word.
    pub open spec fn number(self) -> u32 {
        match self {
            Kind::Int => 1,
            Kind::Ptr => 2,
            Kind::Array => 3,
            Kind::Struct => 4,
            Kind::Union => 5,
            Kind::Enum => 6,
            Kind::Fwd => 7,
            Kind::Typedef => 8,
            Kind::Volatile => 9,
            Kind::Const => 10,
            Kind::Restrict => 11,
            Kind::Func => 12,
            Kind::FuncProto => 13,
            Kind::Var => 14,
            Kind::DataSec => 15,
            Kind::Float => 16,
            Kind::DeclTag => 17,
            Kind::TypeTag => 18,
            Kind::Enum64 => 19,
        }
    }
}

/// A kind comes from its own number, and only numbers from 1 to 19 stand
/// for a kind.
pub proof fn lemma_kind_number(value: u32)
    ensures
        kind_of(value) is Ok <==> 1 <= value <= 19,
        kind_of(value) matches Ok(kind) ==> kind.number() == value,
        kind_of(value) matches Err(kind) ==> kind == ErrorKind::InvalidBTFKind,
{
}

} // verus!
