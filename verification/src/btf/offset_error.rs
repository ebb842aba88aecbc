use crate::btf::error::{Error, ErrorKind};
use crate::utils::text::{decimal, decimal_text};
use vstd::prelude::*;
use vstd::std_specs::convert::FromSpecImpl;
use vstd::string::StringExecFns;

verus! {

/// Lightweight error type for the walk along a type path, which avoids
/// string formatting. Only formatted into a full `Error` when the error
/// escapes to the caller.
#[derive(Debug)]
pub enum OffsetError<'a> {
    /// A type id is not in the graph
    InvalidTypeId,
    /// The path steps into the void type
    VoidDereference,
    /// The index is not below the element count of the array
    IndexOutOfBounds { index: usize, array_size: u32 },
    /// The offset of the array element does not fit in 32 bits
    ArrayOffsetOverflow,
    /// The path indexes a pointer
    PtrNotIndexable,
    /// The path indexes a type that is neither an array nor a pointer
    TypeNotIndexable,
    /// The path names a member of a type that is neither a struct nor a union
    NotStructOrUnion,
    /// The struct or union has no member of this name
    MemberNotFound { name: &'a str },
    /// Wraps an existing `Error` (from the offset arithmetic, the size of a
    /// type or the path itself)
    Btf(Error),
}

/// Why a path leads nowhere.
pub enum PathFailure {
    /// A type id is not in the graph
    InvalidTypeId,
    /// The path steps into the void type
    VoidDereference,
    /// The index is not below the element count of the array
    IndexOutOfBounds { index: usize, array_size: u32 },
    /// The offset of the array element does not fit in 32 bits
    ArrayOffsetOverflow,
    /// The path indexes a pointer
    PtrNotIndexable,
    /// The path indexes a type that is neither an array nor a pointer
    TypeNotIndexable,
    /// The path names a member of a type that is neither a struct nor a union
    NotStructOrUnion,
    /// The struct or union has no member of this name
    MemberNotFound { name: Seq<char> },
    /// The offset arithmetic, the size of a type or the path itself failed
    /// with this kind
    Other(ErrorKind),
}

impl PathFailure {
    /// The kind of the failure.
    pub open spec fn kind(self) -> ErrorKind {
        match self {
            PathFailure::InvalidTypeId => ErrorKind::InvalidTypeID,
            PathFailure::Other(kind) => kind,
            _ => ErrorKind::InvalidTypePath,
        }
    }

    /// The message that tells the failure to a human reader. Where the
    /// failure comes from elsewhere, its message does too.
    pub open spec fn message(self) -> Option<Seq<char>> {
        match self {
            PathFailure::InvalidTypeId => Some("Invalid type id"@),
            PathFailure::VoidDereference => Some("The void type can't be dereferenced with a path"@),
            PathFailure::IndexOutOfBounds { index, array_size } => Some(
                "Index "@ + decimal_text(index as nat) + " is out of bounds for array of size "@ + decimal_text(
                    array_size as nat,
                ),
            ),
            PathFailure::ArrayOffsetOverflow => Some("Array element offset overflow"@),
            PathFailure::PtrNotIndexable => Some(
                "Type is a ptr, and dereferencing it would require a read operation"@,
            ),
            PathFailure::TypeNotIndexable => Some("Type is not indexable"@),
            PathFailure::NotStructOrUnion => Some("Type is not a struct or union"@),
            PathFailure::MemberNotFound { name } => Some("Member '"@ + name + "' not found"@),
            PathFailure::Other(_) => None,
        }
    }

    /// Whether an error tells this failure: it has its kind, and its
    /// message where the failure has one.
    pub open spec fn told_by(self, e: Error) -> bool {
        &&& e.kind == self.kind()
        &&& self.message() matches Some(message) ==> e.message@ == message
    }
}

impl<'a> View for OffsetError<'a> {
    type V = PathFailure;

    open spec fn view(&self) -> PathFailure {
        match self {
            OffsetError::InvalidTypeId => PathFailure::InvalidTypeId,
            OffsetError::VoidDereference => PathFailure::VoidDereference,
            OffsetError::IndexOutOfBounds { index, array_size } => PathFailure::IndexOutOfBounds {
                index: *index,
                array_size: *array_size,
            },
            OffsetError::ArrayOffsetOverflow => PathFailure::ArrayOffsetOverflow,
            OffsetError::PtrNotIndexable => PathFailure::PtrNotIndexable,
            OffsetError::TypeNotIndexable => PathFailure::TypeNotIndexable,
            OffsetError::NotStructOrUnion => PathFailure::NotStructOrUnion,
            OffsetError::MemberNotFound { name } => PathFailure::MemberNotFound { name: name@ },
            OffsetError::Btf(e) => PathFailure::Other(e.kind),
        }
    }
}

impl<'a> OffsetError<'a> {
    /// The kind of the failure.
    pub open spec fn kind(self) -> ErrorKind {
        match self {
            OffsetError::InvalidTypeId => ErrorKind::InvalidTypeID,
            OffsetError::Btf(e) => e.kind,
            _ => ErrorKind::InvalidTypePath,
        }
    }

    /// The message that tells the failure to a human reader.
    pub open spec fn message(self) -> Seq<char> {
        match self {
            OffsetError::InvalidTypeId => "Invalid type id"@,
            OffsetError::VoidDereference => "The void type can't be dereferenced with a path"@,
            OffsetError::IndexOutOfBounds { index, array_size } => "Index "@ + decimal_text(index as nat)
                + " is out of bounds for array of size "@ + decimal_text(array_size as nat),
            OffsetError::ArrayOffsetOverflow => "Array element offset overflow"@,
            OffsetError::PtrNotIndexable => "Type is a ptr, and dereferencing it would require a read operation"@,
            OffsetError::TypeNotIndexable => "Type is not indexable"@,
            OffsetError::NotStructOrUnion => "Type is not a struct or union"@,
            OffsetError::MemberNotFound { name } => "Member '"@ + name@ + "' not found"@,
            OffsetError::Btf(e) => e.message@,
        }
    }
}

impl<'a> From<Error> for OffsetError<'a> {
    fn from(e: Error) -> (r: Self)
        ensures
            r == OffsetError::Btf(e),
    {
        OffsetError::Btf(e)
    }
}

impl<'a> FromSpecImpl<Error> for OffsetError<'a> {
    open spec fn obeys_from_spec() -> bool {
        true
    }

    open spec fn from_spec(e: Error) -> Self {
        OffsetError::Btf(e)
    }
}

impl<'a> From<OffsetError<'a>> for Error {
    fn from(e: OffsetError<'a>) -> (r: Self)
        ensures
            r.kind == e.kind(),
            r.message@ == e.message(),
            e@.told_by(r),
    {
        match e {
            OffsetError::InvalidTypeId => Error::new(ErrorKind::InvalidTypeID, "Invalid type id"),
            OffsetError::VoidDereference => Error::new(
                ErrorKind::InvalidTypePath,
                "The void type can't be dereferenced with a path",
            ),
            OffsetError::IndexOutOfBounds { index, array_size } => {
                let mut message = String::from_str("Index ");
                message.append(decimal(index as u64).as_str());
                message.append(" is out of bounds for array of size ");
                message.append(decimal(array_size as u64).as_str());
                Error::new(ErrorKind::InvalidTypePath, message.as_str())
            },
            OffsetError::ArrayOffsetOverflow => Error::new(
                ErrorKind::InvalidTypePath,
                "Array element offset overflow",
            ),
            OffsetError::PtrNotIndexable => Error::new(
                ErrorKind::InvalidTypePath,
                "Type is a ptr, and dereferencing it would require a read operation",
            ),
            OffsetError::TypeNotIndexable => Error::new(ErrorKind::InvalidTypePath, "Type is not indexable"),
            OffsetError::NotStructOrUnion => Error::new(
                ErrorKind::InvalidTypePath,
                "Type is not a struct or union",
            ),
            OffsetError::MemberNotFound { name } => {
                let mut message = String::from_str("Member '");
                message.append(name);
                message.append("' not found");
                Error::new(ErrorKind::InvalidTypePath, message.as_str())
            },
            OffsetError::Btf(e) => e,
        }
    }
}

impl<'a> FromSpecImpl<OffsetError<'a>> for Error {
    open spec fn obeys_from_spec() -> bool {
        false
    }

    open spec fn from_spec(e: OffsetError<'a>) -> Self {
        arbitrary()
    }
}

} // verus!
