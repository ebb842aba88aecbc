use crate::btf::error::{and_then, Error, ErrorKind};
use crate::btf::file_header::FileHeader;
use crate::btf::header::Header;
use crate::btf::kind::Kind;
use crate::btf::model::{check_tail, clone_name, name_view, tail_fits, view_agrees, TypeRecord};
use crate::btf::readable::Readable;
use crate::btf::string::{name_at, parse_name};
use crate::btf::type_trait::Type;
use crate::utils::reader::{u32_at, Endianness, Reader};
use vstd::prelude::*;

verus! {

/// The size of the extra data
pub const INT_DATA_SIZE: usize = 4;

/// Int data
#[derive(Debug)]
pub struct Data {
    /// The integer name
    pub name: Option<String>,
    /// The int type size, in bytes
    pub size: usize,
    /// Whether the integer is signed
    pub signed: bool,
    /// Whether the integer is a char
    pub char: bool,
    /// Whether the integer is a boolean
    pub boolean: bool,
    /// The offset, in bits, of the integer. Used for bitfields
    pub offset: usize,
    /// The number of bits in the integer. Used for bitfields
    pub bits: usize,
}

/// What an integer type holds besides its header.
pub struct DataModel {
    /// The integer name
    pub name: Option<Seq<char>>,
    /// The int type size, in bytes
    pub size: usize,
    /// Whether the integer is signed
    pub signed: bool,
    /// Whether the integer is a char
    pub char: bool,
    /// Whether the integer is a boolean
    pub boolean: bool,
    /// The offset, in bits, of the integer
    pub offset: usize,
    /// The number of bits in the integer
    pub bits: usize,
}

impl View for Data {
    type V = DataModel;

    open spec fn view(&self) -> DataModel {
        DataModel {
            name: name_view(self.name),
            size: self.size,
            signed: self.signed,
            char: self.char,
            boolean: self.boolean,
            offset: self.offset,
            bits: self.bits,
        }
    }
}

impl Clone for Data {
    fn clone(&self) -> (copy: Self)
        ensures
            copy@ == self@,
    {
        Data {
            name: clone_name(&self.name),
            size: self.size,
            signed: self.signed,
            char: self.char,
            boolean: self.boolean,
            offset: self.offset,
            bits: self.bits,
        }
    }
}

/// The number of bytes in the tail of an `Int` type.
pub open spec fn tail_size(type_header: Header) -> int {
    INT_DATA_SIZE as int
}

/// The encoding bits of the word that follows the header of an integer
/// type: bits 24 to 27.
pub open spec fn int_encoding(word: u32) -> u32 {
    (word & 0x0F000000) >> 24
}

/// The bit offset in the word that follows the header of an integer type:
/// bits 16 to 23.
pub open spec fn int_offset(word: u32) -> usize {
    ((word & 0x00FF0000) >> 16) as usize
}

/// The bit count in the word that follows the header of an integer type:
/// bits 0 to 7.
pub open spec fn int_bits(word: u32) -> usize {
    (word & 0x000000FF) as usize
}

/// What the word that follows the header and the name make of an integer
/// type. Of the encodings signed (bit 0), char (bit 1) and bool (bit 2) at
/// most one may be set, else `InvalidTypeHeaderAttribute`.
pub open spec fn int_data(
    word: u32,
    name: Option<Seq<char>>,
    type_header: Header,
) -> Result<DataModel, ErrorKind> {
    let signed = (int_encoding(word) & 1) != 0;
    let char = (int_encoding(word) & 2) != 0;
    let boolean = (int_encoding(word) & 4) != 0;
    if (signed && char) || (signed && boolean) || (char && boolean) {
        Err(ErrorKind::InvalidTypeHeaderAttribute)
    } else {
        Ok(
            DataModel {
                name,
                size: type_header.size_or_type as usize,
                signed,
                char,
                boolean,
                offset: int_offset(word),
                bits: int_bits(word),
            },
        )
    }
}

/// The data of the integer type whose tail, one word, lies at `offset` of
/// `content`.
pub open spec fn data_at(
    content: Seq<u8>,
    endianness: Endianness,
    file_header: FileHeader,
    offset: int,
    type_header: Header,
) -> Result<DataModel, ErrorKind> {
    and_then(u32_at(content, endianness, offset), |word: u32|
        and_then(name_at(content, endianness, file_header, type_header.name_offset), |name: Option<Seq<char>>|
            int_data(word, name, type_header)))
}

/// The `Int` type whose tail lies at `offset` of `content`, for the header that
/// stands before it. The header has to be of the kind `Int` and the tail has
/// to lie inside the type section.
pub open spec fn int_at(
    content: Seq<u8>,
    endianness: Endianness,
    file_header: FileHeader,
    offset: int,
    type_header: Header,
) -> Result<TypeRecord<DataModel>, ErrorKind> {
    if type_header.kind != Kind::Int {
        Err(ErrorKind::InvalidBTFKind)
    } else {
        and_then(tail_fits(file_header, offset, tail_size(type_header)), |fits: ()|
            and_then(data_at(content, endianness, file_header, offset, type_header), |data: DataModel|
                Ok(TypeRecord { header: type_header, data })))
    }
}

impl Data {
    /// The size of the extra data
    pub fn size(type_header: &Header) -> (size: usize)
        ensures
            size == tail_size(*type_header),
    {
        INT_DATA_SIZE
    }

    /// Creates a new `Data` object
    pub fn new<R: Readable>(
        reader: &mut Reader<R>,
        file_header: &FileHeader,
        type_header: &Header,
    ) -> (r: Result<Self, Error>)
        ensures
            final(reader).same_source(old(reader)),
            view_agrees(
                r,
                data_at(
                    old(reader).content(),
                    old(reader).endianness,
                    *file_header,
                    old(reader).offset as int,
                    *type_header,
                ),
                old(reader).reliable(),
            ),
            r is Ok ==> final(reader).offset == old(reader).offset + tail_size(*type_header),
    {
        let extra_info = reader.u32()?;
        let encoding = (extra_info & 0x0F000000) >> 24;
        let offset = ((extra_info & 0x00FF0000) >> 16) as usize;
        let bits = (extra_info & 0x000000FF) as usize;
        let name = parse_name(reader, file_header, type_header.name_offset())?;
        let signed = (encoding & 1) != 0;
        let char = (encoding & 2) != 0;
        let boolean = (encoding & 4) != 0;
        if (signed && char) || (signed && boolean) || (char && boolean) {
            return Err(
                Error::new(ErrorKind::InvalidTypeHeaderAttribute, "Invalid encoding attribute for int type"),
            );
        }
        Ok(Self { name, size: type_header.size_or_type() as usize, signed, char, boolean, offset, bits })
    }
}

/// Represents an `Int` type.
#[derive(Debug)]
pub struct Int {
    /// Type header
    pub type_header: Header,
    /// Type data
    pub data: Data,
}

impl View for Int {
    type V = TypeRecord<DataModel>;

    open spec fn view(&self) -> TypeRecord<DataModel> {
        TypeRecord { header: self.type_header, data: self.data@ }
    }
}

impl Clone for Int {
    fn clone(&self) -> (copy: Self)
        ensures
            copy@ == self@,
    {
        Int { type_header: self.type_header, data: self.data.clone() }
    }
}

impl Type for Int {
    open spec fn type_header(&self) -> Header {
        self.type_header
    }

    /// Returns the type header
    fn header(&self) -> (header: &Header) {
        &self.type_header
    }
}

impl Int {
    /// Creates a new `Int` object from the given data
    pub fn create(
        type_header: Header,
        name: Option<String>,
        size: usize,
        signed: bool,
        char: bool,
        boolean: bool,
        offset: usize,
        bits: usize,
    ) -> (r: Self)
        ensures
            r.type_header == type_header,
            r.data == (Data { name, size, signed, char, boolean, offset, bits }),
    {
        Self { type_header, data: Data { name, size, signed, char, boolean, offset, bits } }
    }

    /// Creates a new `Int` object
    pub fn new<R: Readable>(
        reader: &mut Reader<R>,
        file_header: &FileHeader,
        type_header: Header,
    ) -> (r: Result<Self, Error>)
        ensures
            final(reader).same_source(old(reader)),
            view_agrees(
                r,
                int_at(
                    old(reader).content(),
                    old(reader).endianness,
                    *file_header,
                    old(reader).offset as int,
                    type_header,
                ),
                old(reader).reliable(),
            ),
            r is Ok ==> final(reader).offset == old(reader).offset + tail_size(type_header),
    {
        match type_header.kind() {
            Kind::Int => {},
            _ => {
                return Err(Error::new(ErrorKind::InvalidBTFKind, "Invalid type kind: expected Int"));
            },
        }
        check_tail(file_header, reader.offset(), Data::size(&type_header))?;
        let data = Data::new(reader, file_header, &type_header)?;
        Ok(Self { type_header, data })
    }

    /// Returns the `name` field of the type
    pub fn name(&self) -> (name: &Option<String>)
        ensures
            *name == self.data.name,
    {
        &self.data.name
    }

    /// Returns the `size` field of the type
    pub fn size(&self) -> (size: &usize)
        ensures
            *size == self.data.size,
    {
        &self.data.size
    }

    /// Returns the `signed` field of the type
    pub fn signed(&self) -> (signed: &bool)
        ensures
            *signed == self.data.signed,
    {
        &self.data.signed
    }

    /// Returns the `char` field of the type
    pub fn char(&self) -> (char: &bool)
        ensures
            *char == self.data.char,
    {
        &self.data.char
    }

    /// Returns the `boolean` field of the type
    pub fn boolean(&self) -> (boolean: &bool)
        ensures
            *boolean == self.data.boolean,
    {
        &self.data.boolean
    }

    /// Returns the `offset` field of the type
    pub fn offset(&self) -> (offset: &usize)
        ensures
            *offset == self.data.offset,
    {
        &self.data.offset
    }

    /// Returns the `bits` field of the type
    pub fn bits(&self) -> (bits: &usize)
        ensures
            *bits == self.data.bits,
    {
        &self.data.bits
    }
}

} // verus!
