use vstd::prelude::*;

verus! {

/// The kinds of failure that decoding and the queries report.
#[derive(Debug, Clone, Copy, PartialEq, Eq, Structural)]
pub enum ErrorKind {
    /// An IO error has occurred
    IOError,
    /// The end of the file has been reached
    EOF,
    /// The offset is invalid, as there are not enough bytes left to complete the read request
    InvalidOffset,
    /// The BTF header magic number is invalid
    InvalidMagic,
    /// Invalid BTF kind specified in the type info flags
    InvalidBTFKind,
    /// Invalid string offset
    InvalidStringOffset,
    /// The string is not correctly null terminated
    InvalidString,
    /// Unsupported BTF type encountered
    UnsupportedType,
    /// Invalid type header attribute
    InvalidTypeHeaderAttribute,
    /// Invalid type section offset
    InvalidTypeSectionOffset,
    /// The given type path is invalid
    InvalidTypePath,
    /// Invalid type id
    InvalidTypeID,
    /// The specified BTF type id is not sized
    NotSized,
    /// Found a bitfield in the middle of a type path resolution
    UnexpectedBitfield,
}

/// A failure: its kind, and a message for a human reader.
#[derive(Debug)]
pub struct Error {
    /// The error kind
    pub kind: ErrorKind,
    /// The error message
    pub message: String,
}

impl Error {
    /// Creates a new `Error` instance
    pub fn new(kind: ErrorKind, message: &str) -> (e: Error)
        ensures
            e.kind == kind,
            e.message@ == message@,
    {
        Error { kind, message: message.to_owned() }
    }

    /// Returns the error kind
    pub fn kind(&self) -> (kind: ErrorKind)
        ensures
            kind == self.kind,
    {
        self.kind
    }

    /// Returns the error message
    pub fn message(&self) -> (message: &str)
        ensures
            message@ == self.message@,
    {
        self.message.as_str()
    }
}

/// Whether a result that may also have failed in transport agrees with what
/// the bytes of the source determine: a success is the expected value, and a
/// failure is the expected failure, or an I/O failure where the source is
/// not reliable.
pub open spec fn agrees<T>(
    r: Result<T, Error>,
    expected: Result<T, ErrorKind>,
    reliable: bool,
) -> bool {
    match r {
        Ok(v) => expected == Ok::<T, ErrorKind>(v),
        Err(e) => expected == Err::<T, ErrorKind>(e.kind) || (!reliable && e.kind == ErrorKind::IOError),
    }
}

/// The outcome of a step that follows a first one: the failure of the first,
/// or what `next` makes of its value.
pub open spec fn and_then<A, B>(
    first: Result<A, ErrorKind>,
    next: spec_fn(A) -> Result<B, ErrorKind>,
) -> Result<B, ErrorKind> {
    match first {
        Ok(value) => next(value),
        Err(kind) => Err(kind),
    }
}

} // verus!
