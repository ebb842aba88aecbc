use crate::btf::error::{Error, ErrorKind};
use crate::utils::text::with_number;
use vstd::prelude::*;
use vstd::string::StringSliceAdditionalSpecFns;

verus! {

/// A component of a type path
#[derive(Debug, Clone, Copy, PartialEq, Eq)]
pub enum TypePathComponent<'a> {
    /// An index into an array
    Index(usize),
    /// A name of a struct (or union) field
    Name(&'a str),
}

/// What a path yields, one after the other: the index or the name of a
/// component, or the mark that the path is malformed at this place.
pub enum PathItem {
    /// An index into an array
    Index(usize),
    /// A name of a struct (or union) field
    Name(Seq<char>),
    /// The path is malformed here
    Invalid,
}

impl<'a> View for TypePathComponent<'a> {
    type V = PathItem;

    open spec fn view(&self) -> PathItem {
        match self {
            TypePathComponent::Index(index) => PathItem::Index(*index),
            TypePathComponent::Name(name) => PathItem::Name(name@),
        }
    }
}

/// Tracks the internal state of the type path parser
#[derive(Debug, Clone, Copy, PartialEq, Eq, Structural)]
pub enum TypePathParserState {
    /// The initial (empty) state
    Start,
    /// Inside a field name
    InsideName,
    /// Inside an index
    InsideIndex,
    /// After an index (expecting '.' or '[')
    AfterIndex,
    /// Expecting the first character of a name (after '.')
    ExpectingName,
    /// Parser has encountered an error
    Error,
    /// Parser is done
    Done,
}

/// Whether a byte, taken as the character with its number, is a letter.
pub open spec fn is_alphabetic(byte: u8) -> bool {
    ||| 0x41 <= byte <= 0x5A
    ||| 0x61 <= byte <= 0x7A
    ||| byte == 0xAA
    ||| byte == 0xB5
    ||| byte == 0xBA
    ||| 0xC0 <= byte <= 0xD6
    ||| 0xD8 <= byte <= 0xF6
    ||| 0xF8 <= byte
}

/// Whether a byte is one of the digits `0` to `9`.
pub open spec fn is_digit(byte: u8) -> bool {
    0x30 <= byte <= 0x39
}

/// Whether a byte, taken as the character with its number, is numeric: a
/// digit, a superscript digit or a fraction.
pub open spec fn is_numeric(byte: u8) -> bool {
    ||| is_digit(byte)
    ||| byte == 0xB2
    ||| byte == 0xB3
    ||| byte == 0xB9
    ||| 0xBC <= byte <= 0xBE
}

/// Whether a name can start with this byte: a letter or `_`.
pub open spec fn is_name_start(byte: u8) -> bool {
    is_alphabetic(byte) || byte == 0x5F
}

/// Whether a name can go on with this byte: a letter, something numeric or `_`.
pub open spec fn is_name_byte(byte: u8) -> bool {
    is_alphabetic(byte) || is_numeric(byte) || byte == 0x5F
}

/// The number that decimal digits spell.
pub open spec fn decimal_value(digits: Seq<u8>) -> nat
    decreases digits.len(),
{
    if digits.len() == 0 {
        0
    } else {
        decimal_value(digits.drop_last()) * 10 + (digits.last() - 0x30) as nat
    }
}

/// The index that the digits between two brackets spell: none where there
/// is no digit, or where the number does not fit in `usize`.
pub open spec fn index_value(digits: Seq<u8>) -> Option<usize> {
    if digits.len() == 0 || decimal_value(digits) > usize::MAX {
        None
    } else {
        Some(decimal_value(digits) as usize)
    }
}

/// The text of the bytes of `path` from `start` up to `end`.
pub open spec fn name_text(path: Seq<u8>, start: int, end: int) -> Seq<char> {
    vstd::utf8::decode_utf8(path.subrange(start, end))
}

/// What the bytes of a path yield from `position` on, when the recognizer
/// is in `state` there and the name or index that it is inside began at
/// `start`.
///
/// A path is a row of names and bracketed decimal indices. A name starts
/// the path or follows a `.`; an index starts the path or follows a name or
/// an index. A path that ends behind a `.` is complete; one that ends
/// inside an index is malformed. Nothing follows the first malformed place.
pub open spec fn lex(
    path: Seq<u8>,
    position: int,
    state: TypePathParserState,
    start: int,
) -> Seq<PathItem>
    decreases path.len() - position,
{
    if position >= path.len() {
        match state {
            TypePathParserState::InsideName => seq![PathItem::Name(name_text(path, start, position))],
            TypePathParserState::InsideIndex => seq![PathItem::Invalid],
            _ => Seq::empty(),
        }
    } else {
        let byte = path[position];
        match state {
            TypePathParserState::Start => if byte == 0x5B {
                lex(path, position + 1, TypePathParserState::InsideIndex, position + 1)
            } else if is_name_start(byte) {
                lex(path, position + 1, TypePathParserState::InsideName, position)
            } else {
                seq![PathItem::Invalid]
            },
            TypePathParserState::ExpectingName => if is_name_start(byte) {
                lex(path, position + 1, TypePathParserState::InsideName, position)
            } else {
                seq![PathItem::Invalid]
            },
            TypePathParserState::InsideName => if is_name_byte(byte) {
                lex(path, position + 1, TypePathParserState::InsideName, start)
            } else if byte == 0x5B {
                seq![PathItem::Name(name_text(path, start, position))] + lex(
                    path,
                    position + 1,
                    TypePathParserState::InsideIndex,
                    position + 1,
                )
            } else if byte == 0x2E {
                seq![PathItem::Name(name_text(path, start, position))] + lex(
                    path,
                    position + 1,
                    TypePathParserState::ExpectingName,
                    position + 1,
                )
            } else {
                seq![PathItem::Invalid]
            },
            TypePathParserState::InsideIndex => if is_digit(byte) {
                lex(path, position + 1, TypePathParserState::InsideIndex, start)
            } else if byte == 0x5D {
                match index_value(path.subrange(start, position)) {
                    Some(index) => seq![PathItem::Index(index)] + lex(
                        path,
                        position + 1,
                        TypePathParserState::AfterIndex,
                        position + 1,
                    ),
                    None => seq![PathItem::Invalid],
                }
            } else {
                seq![PathItem::Invalid]
            },
            TypePathParserState::AfterIndex => if byte == 0x5B {
                lex(path, position + 1, TypePathParserState::InsideIndex, position + 1)
            } else if byte == 0x2E {
                lex(path, position + 1, TypePathParserState::ExpectingName, position + 1)
            } else {
                seq![PathItem::Invalid]
            },
            TypePathParserState::Error | TypePathParserState::Done => Seq::empty(),
        }
    }
}

/// What a whole path yields.
pub open spec fn path_items(path: Seq<u8>) -> Seq<PathItem> {
    lex(path, 0, TypePathParserState::Start, 0)
}

/// Nothing follows a malformed place: `Invalid` is at most the last item.
pub proof fn lemma_invalid_is_last(
    path: Seq<u8>,
    position: int,
    state: TypePathParserState,
    start: int,
    i: int,
)
    requires
        0 <= i < lex(path, position, state, start).len(),
        lex(path, position, state, start)[i] is Invalid,
    ensures
        i == lex(path, position, state, start).len() - 1,
    decreases path.len() - position,
{
    if position < path.len() {
        let byte = path[position];
        match state {
            TypePathParserState::Start => {
                if byte == 0x5B {
                    lemma_invalid_is_last(
                        path,
                        position + 1,
                        TypePathParserState::InsideIndex,
                        position + 1,
                        i,
                    );
                } else if is_name_start(byte) {
                    lemma_invalid_is_last(path, position + 1, TypePathParserState::InsideName, position, i);
                }
            },
            TypePathParserState::ExpectingName => {
                if is_name_start(byte) {
                    lemma_invalid_is_last(path, position + 1, TypePathParserState::InsideName, position, i);
                }
            },
            TypePathParserState::InsideName => {
                if is_name_byte(byte) {
                    lemma_invalid_is_last(path, position + 1, TypePathParserState::InsideName, start, i);
                } else if byte == 0x5B {
                    lemma_invalid_is_last(
                        path,
                        position + 1,
                        TypePathParserState::InsideIndex,
                        position + 1,
                        i - 1,
                    );
                } else if byte == 0x2E {
                    lemma_invalid_is_last(
                        path,
                        position + 1,
                        TypePathParserState::ExpectingName,
                        position + 1,
                        i - 1,
                    );
                }
            },
            TypePathParserState::InsideIndex => {
                if is_digit(byte) {
                    lemma_invalid_is_last(path, position + 1, TypePathParserState::InsideIndex, start, i);
                } else if byte == 0x5D && index_value(path.subrange(start, position)) is Some {
                    lemma_invalid_is_last(
                        path,
                        position + 1,
                        TypePathParserState::AfterIndex,
                        position + 1,
                        i - 1,
                    );
                }
            },
            TypePathParserState::AfterIndex => {
                if byte == 0x5B {
                    lemma_invalid_is_last(
                        path,
                        position + 1,
                        TypePathParserState::InsideIndex,
                        position + 1,
                        i,
                    );
                } else if byte == 0x2E {
                    lemma_invalid_is_last(
                        path,
                        position + 1,
                        TypePathParserState::ExpectingName,
                        position + 1,
                        i,
                    );
                }
            },
            _ => {},
        }
    }
}

/// Tells whether a byte, taken as the character with its number, is a letter
pub fn byte_is_alphabetic(byte: u8) -> (r: bool)
    ensures
        r == is_alphabetic(byte),
{
    (0x41 <= byte && byte <= 0x5A) || (0x61 <= byte && byte <= 0x7A) || byte == 0xAA || byte == 0xB5
        || byte == 0xBA || (0xC0 <= byte && byte <= 0xD6) || (0xD8 <= byte && byte <= 0xF6) || 0xF8
        <= byte
}

/// Tells whether a byte, taken as the character with its number, is numeric
pub fn byte_is_numeric(byte: u8) -> (r: bool)
    ensures
        r == is_numeric(byte),
{
    (0x30 <= byte && byte <= 0x39) || byte == 0xB2 || byte == 0xB3 || byte == 0xB9 || (0xBC <= byte
        && byte <= 0xBE)
}

/// An iterator over the components of a type path string
#[derive(Debug, Clone, Copy)]
pub struct TypePathComponentIter<'a> {
    path: &'a str,
    position: usize,
    state: TypePathParserState,
}

/// The position behind a byte below 0x80 of a text lies between two
/// characters.
proof fn lemma_char_boundary_behind_ascii(bytes: Seq<u8>, position: int)
    requires
        vstd::utf8::valid_utf8(bytes),
        0 <= position < bytes.len(),
        bytes[position] < 0x80,
        vstd::utf8::is_char_boundary(bytes, position),
    ensures
        vstd::utf8::is_char_boundary(bytes, position + 1),
    decreases bytes.len(),
{
    reveal_with_fuel(vstd::utf8::is_char_boundary, 2);
    reveal_with_fuel(vstd::utf8::valid_utf8, 2);
    let first = vstd::utf8::length_of_first_scalar(bytes);
    let rest = vstd::utf8::pop_first_scalar(bytes);
    if position == 0 {
        assert(first == 1);
    } else {
        assert(rest[position - first] == bytes[position]);
        lemma_char_boundary_behind_ascii(rest, position - first);
    }
}

/// A position of a text that holds no byte from 0x80 to 0xBF, or is its
/// end, lies between two characters.
proof fn lemma_char_boundary(bytes: Seq<u8>, position: int)
    requires
        vstd::utf8::valid_utf8(bytes),
        0 <= position <= bytes.len(),
        position < bytes.len() ==> !vstd::utf8::is_continuation_byte(bytes[position]),
    ensures
        vstd::utf8::is_char_boundary(bytes, position),
{
    if position < bytes.len() {
        vstd::utf8::is_char_boundary_iff_not_is_continuation_byte(bytes, position);
    } else {
        vstd::utf8::is_char_boundary_start_end_of_seq(bytes);
    }
}

impl<'a> TypePathComponentIter<'a> {
    /// The bytes of the path.
    pub closed spec fn path(&self) -> Seq<u8> {
        self.path.spec_bytes()
    }

    /// What the iterator has yet to yield.
    pub closed spec fn remaining(&self) -> Seq<PathItem> {
        lex(self.path.spec_bytes(), self.position as int, self.state, self.position as int)
    }

    /// The iterator is between two components and inside its path: at its
    /// start, or behind a `.`, where a name is to start.
    #[verifier::type_invariant]
    spec fn inside_path(&self) -> bool {
        &&& self.position <= self.path.spec_bytes().len()
        &&& !(self.state is InsideName)
        &&& self.state is Start ==> self.position == 0
        &&& self.state is ExpectingName ==> self.position > 0 && self.path.spec_bytes()[self.position - 1] == 0x2E
    }

    /// Creates an iterator over the components of `path`
    pub fn new(path: &'a str) -> (iter: Self)
        ensures
            iter.path() == path.spec_bytes(),
            iter.remaining() == path_items(path.spec_bytes()),
    {
        Self { path, position: 0, state: TypePathParserState::Start }
    }

    /// The failure for a byte that the path cannot hold at `position`
    fn invalid_character(position: usize) -> (e: Error)
        ensures
            e.kind == ErrorKind::InvalidTypePath,
    {
        let message = with_number("Invalid character at index ", position as u64);
        Error::new(ErrorKind::InvalidTypePath, message.as_str())
    }

    /// Yields the next component of the path, or the failure at the place
    /// where the path is malformed; `None` when the path is used up or has
    /// failed before
    pub fn next(&mut self) -> (r: Option<Result<TypePathComponent<'a>, Error>>)
        ensures
            final(self).path() == old(self).path(),
            match r {
                None => old(self).remaining() == Seq::<PathItem>::empty() && final(self).remaining()
                    == Seq::<PathItem>::empty(),
                Some(Ok(component)) => {
                    &&& !(component@ is Invalid)
                    &&& old(self).remaining() == seq![component@] + final(self).remaining()
                },
                Some(Err(e)) => {
                    &&& e.kind == ErrorKind::InvalidTypePath
                    &&& old(self).remaining() == seq![PathItem::Invalid]
                    &&& final(self).remaining() == Seq::<PathItem>::empty()
                },
            },
    {
        proof {
            use_type_invariant(&*self);
        }
        match self.state {
            TypePathParserState::Done | TypePathParserState::Error => {
                return None;
            },
            _ => {},
        }
        let bytes = self.path.as_bytes();
        let position = self.position;
        if position >= bytes.len() {
            match self.state {
                TypePathParserState::InsideIndex => {
                    self.state = TypePathParserState::Error;
                    return Some(Err(Error::new(ErrorKind::InvalidTypePath, "Unclosed index bracket")));
                },
                _ => {
                    self.state = TypePathParserState::Done;
                    return None;
                },
            }
        }
        let byte = bytes[position];
        match self.state {
            TypePathParserState::Start => {
                if byte == 0x5B {
                    self.parse_index(position + 1)
                } else {
                    self.expect_name(position)
                }
            },
            TypePathParserState::InsideIndex => self.parse_index(position),
            TypePathParserState::AfterIndex => {
                if byte == 0x5B {
                    self.parse_index(position + 1)
                } else if byte == 0x2E {
                    if position + 1 >= bytes.len() {
                        proof {
                            assert(lex(bytes@, position + 1, TypePathParserState::ExpectingName, position + 1)
                                == Seq::<PathItem>::empty());
                        }
                        *self = Self { path: self.path, position: position + 1, state: TypePathParserState::Done };
                        None
                    } else {
                        self.expect_name(position + 1)
                    }
                } else {
                    self.state = TypePathParserState::Error;
                    Some(Err(Self::invalid_character(position)))
                }
            },
            _ => self.expect_name(position),
        }
    }

    /// Reads a name that has to start at `start`
    fn expect_name(&mut self, start: usize) -> (r: Option<Result<TypePathComponent<'a>, Error>>)
        requires
            start < old(self).path.spec_bytes().len(),
            start == 0 || old(self).path.spec_bytes()[start - 1] == 0x2E,
        ensures
            final(self).path() == old(self).path(),
            match r {
                None => false,
                Some(Ok(component)) => {
                    &&& !(component@ is Invalid)
                    &&& lex(old(self).path(), start as int, TypePathParserState::ExpectingName, start as int)
                        == seq![component@] + final(self).remaining()
                },
                Some(Err(e)) => {
                    &&& e.kind == ErrorKind::InvalidTypePath
                    &&& lex(old(self).path(), start as int, TypePathParserState::ExpectingName, start as int)
                        == seq![PathItem::Invalid]
                    &&& final(self).remaining() == Seq::<PathItem>::empty()
                },
            },
    {
        proof {
            use_type_invariant(&*self);
        }
        let bytes = self.path.as_bytes();
        let byte = bytes[start];
        if byte_is_alphabetic(byte) || byte == 0x5F {
            self.parse_name(start)
        } else {
            self.state = TypePathParserState::Error;
            Some(Err(Self::invalid_character(start)))
        }
    }

    /// Reads the name that starts at `start`
    fn parse_name(&mut self, start: usize) -> (r: Option<Result<TypePathComponent<'a>, Error>>)
        requires
            start < old(self).path.spec_bytes().len(),
            start == 0 || old(self).path.spec_bytes()[start - 1] == 0x2E,
            is_name_start(old(self).path.spec_bytes()[start as int]),
        ensures
            final(self).path() == old(self).path(),
            match r {
                None => false,
                Some(Ok(component)) => {
                    &&& !(component@ is Invalid)
                    &&& lex(old(self).path(), start + 1, TypePathParserState::InsideName, start as int)
                        == seq![component@] + final(self).remaining()
                },
                Some(Err(e)) => {
                    &&& e.kind == ErrorKind::InvalidTypePath
                    &&& lex(old(self).path(), start + 1, TypePathParserState::InsideName, start as int)
                        == seq![PathItem::Invalid]
                    &&& final(self).remaining() == Seq::<PathItem>::empty()
                },
            },
    {
        proof {
            use_type_invariant(&*self);
        }
        let path = self.path;
        let bytes = path.as_bytes();
        let ghost whole = lex(bytes@, start + 1, TypePathParserState::InsideName, start as int);
        let length = bytes.len();
        let mut end = start + 1;
        let mut malformed = false;
        while end < length
            invariant_except_break
                !malformed,
            invariant
                bytes@ == path.spec_bytes(),
                length == bytes@.len(),
                start < end <= bytes@.len(),
                whole == lex(bytes@, end as int, TypePathParserState::InsideName, start as int),
            ensures
                start < end <= bytes@.len(),
                whole == lex(bytes@, end as int, TypePathParserState::InsideName, start as int),
                malformed ==> whole == seq![PathItem::Invalid],
                !malformed && end < bytes@.len() ==> bytes@[end as int] == 0x5B || bytes@[end as int] == 0x2E,
            decreases bytes@.len() - end,
        {
            let byte = bytes[end];
            if byte_is_alphabetic(byte) || byte_is_numeric(byte) || byte == 0x5F {
                end += 1;
            } else if byte == 0x5B || byte == 0x2E {
                break ;
            } else {
                malformed = true;
                break ;
            }
        }
        if malformed {
            self.state = TypePathParserState::Error;
            return Some(Err(Self::invalid_character(end)));
        }
        proof {
            vstd::utf8::encode_utf8_valid_utf8(path@);
            lemma_char_boundary(bytes@, end as int);
            vstd::utf8::valid_utf8_split(bytes@, end as int);
            let head = bytes@.subrange(0, end as int);
            if start > 0 {
                lemma_char_boundary(head, start - 1);
                lemma_char_boundary_behind_ascii(head, start - 1);
            } else {
                vstd::utf8::is_char_boundary_start_end_of_seq(head);
            }
        }
        let (head, _) = path.split_at(end);
        let (_, name) = head.split_at(start);
        proof {
            assert(name.spec_bytes() =~= bytes@.subrange(start as int, end as int));
            vstd::utf8::encode_utf8_decode_utf8(name@);
        }
        if end >= bytes.len() {
            *self = Self { path: self.path, position: end, state: TypePathParserState::Done };
        } else if bytes[end] == 0x5B {
            *self = Self { path: self.path, position: end + 1, state: TypePathParserState::InsideIndex };
        } else {
            *self = Self { path: self.path, position: end + 1, state: TypePathParserState::ExpectingName };
        }
        Some(Ok(TypePathComponent::Name(name)))
    }

    /// Reads the index whose digits start at `start`
    fn parse_index(&mut self, start: usize) -> (r: Option<Result<TypePathComponent<'a>, Error>>)
        requires
            start <= old(self).path.spec_bytes().len(),
        ensures
            final(self).path() == old(self).path(),
            match r {
                None => false,
                Some(Ok(component)) => {
                    &&& !(component@ is Invalid)
                    &&& lex(old(self).path(), start as int, TypePathParserState::InsideIndex, start as int)
                        == seq![component@] + final(self).remaining()
                },
                Some(Err(e)) => {
                    &&& e.kind == ErrorKind::InvalidTypePath
                    &&& lex(old(self).path(), start as int, TypePathParserState::InsideIndex, start as int)
                        == seq![PathItem::Invalid]
                    &&& final(self).remaining() == Seq::<PathItem>::empty()
                },
            },
    {
        proof {
            use_type_invariant(&*self);
        }
        let path = self.path;
        let bytes = path.as_bytes();
        let ghost whole = lex(bytes@, start as int, TypePathParserState::InsideIndex, start as int);
        let mut end = start;
        let mut index: usize = 0;
        let mut too_large = false;
        let mut malformed = false;
        while end < bytes.len()
            invariant_except_break
                !malformed,
            invariant
                bytes@ == path.spec_bytes(),
                start <= end <= bytes@.len(),
                whole == lex(bytes@, end as int, TypePathParserState::InsideIndex, start as int),
                too_large ==> decimal_value(bytes@.subrange(start as int, end as int)) > usize::MAX,
                !too_large ==> decimal_value(bytes@.subrange(start as int, end as int)) == index,
            ensures
                start <= end <= bytes@.len(),
                whole == lex(bytes@, end as int, TypePathParserState::InsideIndex, start as int),
                malformed ==> whole == seq![PathItem::Invalid],
                !malformed && end < bytes@.len() ==> bytes@[end as int] == 0x5D,
                too_large ==> decimal_value(bytes@.subrange(start as int, end as int)) > usize::MAX,
                !too_large ==> decimal_value(bytes@.subrange(start as int, end as int)) == index,
            decreases bytes@.len() - end,
        {
            let byte = bytes[end];
            if 0x30 <= byte && byte <= 0x39 {
                proof {
                    let longer = bytes@.subrange(start as int, end + 1);
                    assert(longer.drop_last() =~= bytes@.subrange(start as int, end as int));
                    assert(longer.last() == byte);
                }
                if !too_large {
                    let digit = (byte - 0x30) as usize;
                    if index > (usize::MAX - digit) / 10 {
                        too_large = true;
                    } else {
                        index = index * 10 + digit;
                    }
                }
                end += 1;
            } else if byte == 0x5D {
                break ;
            } else {
                malformed = true;
                break ;
            }
        }
        if malformed {
            self.state = TypePathParserState::Error;
            return Some(Err(Self::invalid_character(end)));
        }
        if end >= bytes.len() {
            self.state = TypePathParserState::Error;
            return Some(Err(Error::new(ErrorKind::InvalidTypePath, "Unclosed index bracket")));
        }
        if end == start {
            proof {
                assert(bytes@.subrange(start as int, end as int).len() == 0);
            }
            self.state = TypePathParserState::Error;
            return Some(Err(Error::new(ErrorKind::InvalidTypePath, "Empty index")));
        }
        if too_large {
            self.state = TypePathParserState::Error;
            return Some(
                Err(
                    Error::new(
                        ErrorKind::InvalidTypePath,
                        "Invalid index value: number too large to fit in target type",
                    ),
                ),
            );
        }
        // Skip the ']'
        *self = Self { path: self.path, position: end + 1, state: TypePathParserState::AfterIndex };
        Some(Ok(TypePathComponent::Index(index)))
    }
}

} // verus!
