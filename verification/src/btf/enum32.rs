use crate::btf::error::{and_then, Error, ErrorKind};
use crate::btf::file_header::FileHeader;
use crate::btf::header::Header;
use crate::btf::kind::Kind;
use crate::btf::model::{check_tail, clone_name, lemma_views_push, name_view, tail_fits, view_agrees, views, TypeRecord};
use crate::btf::readable::Readable;
use crate::btf::string::{name_at, parse_name, parse_string, string_at};
use crate::btf::type_trait::Type;
use crate::utils::reader::{i32_at, u32_at, Endianness, Reader};
use vstd::prelude::*;

verus! {

/// The size of the extra data (one per enum value)
pub const ENUM_VALUE_SIZE: usize = 8;

/// Represents an enum value
#[derive(Debug, Clone, Copy, PartialEq, Eq, Structural)]
pub enum IntegerValue {
    /// The signed value
    Signed(i32),
    /// The unsigned value
    Unsigned(u32),
}

/// Represents a single enum value
#[derive(Debug)]
pub struct NamedValue {
    /// The name of the value
    pub name: String,
    /// The integer value
    pub value: IntegerValue,
}

/// What a single enum value is.
pub struct NamedValueModel {
    /// The name of the value
    pub name: Seq<char>,
    /// The integer value
    pub value: IntegerValue,
}

impl View for NamedValue {
    type V = NamedValueModel;

    open spec fn view(&self) -> NamedValueModel {
        NamedValueModel { name: self.name@, value: self.value }
    }
}

impl Clone for NamedValue {
    fn clone(&self) -> (copy: Self)
        ensures
            copy@ == self@,
    {
        NamedValue { name: self.name.clone(), value: self.value }
    }
}

/// Represents a list of enum values
pub type NamedValueList = Vec<NamedValue>;

/// The value in the bytes at `offset` of `content`: signed or unsigned, as the enum is.
pub open spec fn integer_value_at(
    content: Seq<u8>,
    endianness: Endianness,
    offset: int,
    signed: bool,
) -> Result<IntegerValue, ErrorKind> {
    if signed {
        and_then(i32_at(content, endianness, offset), |value: i32| Ok(IntegerValue::Signed(value)))
    } else {
        and_then(u32_at(content, endianness, offset), |value: u32| Ok(IntegerValue::Unsigned(value)))
    }
}

/// The enum value in the eight bytes at `offset` of `content`: the offset of its name, of four
/// bytes, and the value. The name is the string at its offset, also where that is zero.
pub open spec fn named_value_at(
    content: Seq<u8>,
    endianness: Endianness,
    file_header: FileHeader,
    offset: int,
    signed: bool,
) -> Result<NamedValueModel, ErrorKind> {
    and_then(u32_at(content, endianness, offset), |name_offset: u32|
        and_then(string_at(content, endianness, file_header, name_offset), |name: Seq<char>|
            and_then(integer_value_at(content, endianness, offset + 4, signed), |value: IntegerValue|
                Ok(NamedValueModel { name, value }))))
}

/// The `count` enum values that lie one behind the other from `offset` of `content` on.
pub open spec fn named_values_at(
    content: Seq<u8>,
    endianness: Endianness,
    file_header: FileHeader,
    offset: int,
    signed: bool,
    count: nat,
) -> Result<Seq<NamedValueModel>, ErrorKind>
    decreases count,
{
    if count == 0 {
        Ok(Seq::empty())
    } else {
        and_then(named_values_at(
            content,
            endianness,
            file_header,
            offset,
            signed,
            (count - 1) as nat,
        ), |front: Seq<NamedValueModel>|
            and_then(named_value_at(
                content,
                endianness,
                file_header,
                offset + ENUM_VALUE_SIZE * (count - 1),
                signed,
            ), |last: NamedValueModel|
                Ok(front.push(last))))
    }
}

/// A list fails as its first element that fails does, however many
/// elements follow.
pub proof fn lemma_named_values_failure(
    content: Seq<u8>,
    endianness: Endianness,
    file_header: FileHeader,
    offset: int,
    signed: bool,
    failing: nat,
    count: nat,
)
    requires
        failing <= count,
        named_values_at(content, endianness, file_header, offset, signed, failing) is Err,
    ensures
        named_values_at(
            content,
            endianness,
            file_header,
            offset,
            signed,
            count,
        ) == named_values_at(content, endianness, file_header, offset, signed, failing),
    decreases count,
{
    if failing < count {
        lemma_named_values_failure(
            content,
            endianness,
            file_header,
            offset,
            signed,
            failing,
            (count - 1) as nat,
        );
    }
}

/// Reads one element of the list
fn read_named_value<R: Readable>(
    reader: &mut Reader<R>,
    file_header: &FileHeader,
    signed: bool,
) -> (r: Result<NamedValue, Error>)
    ensures
        final(reader).same_source(old(reader)),
        view_agrees(
            r,
            named_value_at(
                old(reader).content(),
                old(reader).endianness,
                *file_header,
                old(reader).offset as int,
                signed,
            ),
            old(reader).reliable(),
        ),
        r is Ok ==> final(reader).offset == old(reader).offset + ENUM_VALUE_SIZE,
{
    let name_offset = reader.u32()?;
    let name = parse_string(reader, file_header, name_offset)?;
    let value = if signed {
        IntegerValue::Signed(reader.i32()?)
    } else {
        IntegerValue::Unsigned(reader.u32()?)
    };
    Ok(NamedValue { name, value })
}

/// Reads the list of `count` elements
fn read_named_values<R: Readable>(
    reader: &mut Reader<R>,
    file_header: &FileHeader,
    signed: bool,
    count: usize,
) -> (r: Result<Vec<NamedValue>, Error>)
    ensures
        final(reader).same_source(old(reader)),
        match r {
            Ok(list) => named_values_at(
                old(reader).content(),
                old(reader).endianness,
                *file_header,
                old(reader).offset as int,
                signed,
                count as nat,
            )
                == Ok::<Seq<NamedValueModel>, ErrorKind>(views(list@)),
            Err(e) => named_values_at(
                old(reader).content(),
                old(reader).endianness,
                *file_header,
                old(reader).offset as int,
                signed,
                count as nat,
            )
                == Err::<Seq<NamedValueModel>, ErrorKind>(e.kind) || (!old(reader).reliable() && e.kind == ErrorKind::IOError),
        },
        r is Ok ==> final(reader).offset == old(reader).offset + ENUM_VALUE_SIZE * count,
{
    let ghost content = reader.content();
    let ghost endianness = reader.endianness;
    let ghost start = reader.offset as int;
    let mut list: Vec<NamedValue> = Vec::new();
    let mut i: usize = 0;
    proof {
        assert(views(list@) =~= Seq::empty());
    }
    while i < count
        invariant
            i <= count,
            reader.same_source(old(reader)),
            content == reader.content(),
            endianness == reader.endianness,
            start == old(reader).offset,
            reader.offset == start + ENUM_VALUE_SIZE * i,
            named_values_at(
                content,
                endianness,
                *file_header,
                start,
                signed,
                i as nat,
            ) == Ok::<Seq<NamedValueModel>, ErrorKind>(views(list@)),
        decreases count - i,
    {
        let element = match read_named_value(reader, file_header, signed) {
            Ok(element) => element,
            Err(e) => {
                proof {
                    if named_values_at(
                        content,
                        endianness,
                        *file_header,
                        start,
                        signed,
                        (i + 1) as nat,
                    ) is Err {
                        lemma_named_values_failure(
                            content,
                            endianness,
                            *file_header,
                            start,
                            signed,
                            (i + 1) as nat,
                            count as nat,
                        );
                    }
                }
                return Err(e);
            },
        };
        proof {
            lemma_views_push(list@, element);
        }
        list.push(element);
        i += 1;
    }
    Ok(list)
}

/// Copies a list
fn clone_list(list: &Vec<NamedValue>) -> (copy: Vec<NamedValue>)
    ensures
        views(copy@) == views(list@),
{
    let mut copy: Vec<NamedValue> = Vec::new();
    let mut i: usize = 0;
    proof {
        assert(views(copy@) =~= views(list@.subrange(0, 0)));
    }
    while i < list.len()
        invariant
            i <= list.len(),
            views(copy@) == views(list@.subrange(0, i as int)),
        decreases list.len() - i,
    {
        let element = list[i].clone();
        proof {
            lemma_views_push(copy@, element);
            lemma_views_push(list@.subrange(0, i as int), list@[i as int]);
            assert(list@.subrange(0, i as int).push(list@[i as int]) =~= list@.subrange(0, i + 1));
        }
        copy.push(element);
        i += 1;
    }
    proof {
        assert(list@.subrange(0, list@.len() as int) =~= list@);
    }
    copy
}

/// Enum data
#[derive(Debug)]
pub struct Data {
    /// The enum type name
    pub name: Option<String>,
    /// The enum size, in bytes
    pub size: usize,
    /// A list of enum values
    pub named_value_list: Vec<NamedValue>,
    /// True if the enum is signed
    pub signed: bool,
}

/// What an `Enum` type holds besides its header.
pub struct DataModel {
    /// The enum type name
    pub name: Option<Seq<char>>,
    /// The enum size, in bytes
    pub size: usize,
    /// A list of enum values
    pub named_value_list: Seq<NamedValueModel>,
    /// True if the enum is signed
    pub signed: bool,
}

impl View for Data {
    type V = DataModel;

    open spec fn view(&self) -> DataModel {
        DataModel {
            name: name_view(self.name),
            size: self.size,
            named_value_list: views(self.named_value_list@),
            signed: self.signed,
        }
    }
}

impl Clone for Data {
    fn clone(&self) -> (copy: Self)
        ensures
            copy@ == self@,
    {
        Data {
            name: clone_name(&self.name),
            size: self.size,
            named_value_list: clone_list(&self.named_value_list),
            signed: self.signed,
        }
    }
}

/// The number of bytes in the tail of an `Enum` type.
pub open spec fn tail_size(type_header: Header) -> int {
    type_header.vlen * ENUM_VALUE_SIZE
}

/// The data of the enum whose values lie from `offset` of `content` on: the values, as many
/// as the header counts and signed where the header has the kind flag, the name, and the
/// size in the header.
pub open spec fn data_at(
    content: Seq<u8>,
    endianness: Endianness,
    file_header: FileHeader,
    offset: int,
    type_header: Header,
) -> Result<DataModel, ErrorKind> {
    and_then(named_values_at(
        content,
        endianness,
        file_header,
        offset,
        type_header.kind_flag,
        type_header.vlen as nat,
    ), |named_value_list: Seq<NamedValueModel>|
        and_then(name_at(content, endianness, file_header, type_header.name_offset), |name: Option<Seq<char>>|
            Ok(
                DataModel { name, size: type_header.size_or_type as usize, named_value_list, signed: type_header.kind_flag },
            )))
}

impl Data {
    /// The size of the extra data
    pub fn size(type_header: &Header) -> (size: usize)
        requires
            type_header.vlen * ENUM_VALUE_SIZE <= usize::MAX,
        ensures
            size == tail_size(*type_header),
    {
        type_header.vlen() * ENUM_VALUE_SIZE
    }

    /// Creates a new `Data` object
    pub fn new<R: Readable>(
        reader: &mut Reader<R>,
        file_header: &FileHeader,
        type_header: &Header,
    ) -> (r: Result<Self, Error>)
        ensures
            final(reader).same_source(old(reader)),
            view_agrees(
                r,
                data_at(
                    old(reader).content(),
                    old(reader).endianness,
                    *file_header,
                    old(reader).offset as int,
                    *type_header,
                ),
                old(reader).reliable(),
            ),
            r is Ok ==> final(reader).offset == old(reader).offset + tail_size(*type_header),
    {
        let signed = type_header.kind_flag();
        let named_value_list = read_named_values(reader, file_header, signed, type_header.vlen())?;
        let name = parse_name(reader, file_header, type_header.name_offset())?;
        Ok(Self { name, size: type_header.size_or_type() as usize, named_value_list, signed })
    }
}

/// The `Enum` type whose tail lies at `offset` of `content`, for the header that
/// stands before it. The header has to be of the kind `Enum` and the tail has
/// to lie inside the type section.
pub open spec fn enum32_at(
    content: Seq<u8>,
    endianness: Endianness,
    file_header: FileHeader,
    offset: int,
    type_header: Header,
) -> Result<TypeRecord<DataModel>, ErrorKind> {
    if type_header.kind != Kind::Enum {
        Err(ErrorKind::InvalidBTFKind)
    } else {
        and_then(tail_fits(file_header, offset, tail_size(type_header)), |fits: ()|
            and_then(data_at(content, endianness, file_header, offset, type_header), |data: DataModel|
                Ok(TypeRecord { header: type_header, data })))
    }
}

/// Represents an `Enum` type.
#[derive(Debug)]
pub struct Enum {
    /// Type header
    pub type_header: Header,
    /// Type data
    pub data: Data,
}

impl View for Enum {
    type V = TypeRecord<DataModel>;

    open spec fn view(&self) -> TypeRecord<DataModel> {
        TypeRecord { header: self.type_header, data: self.data@ }
    }
}

impl Clone for Enum {
    fn clone(&self) -> (copy: Self)
        ensures
            copy@ == self@,
    {
        Enum { type_header: self.type_header, data: self.data.clone() }
    }
}

impl Type for Enum {
    open spec fn type_header(&self) -> Header {
        self.type_header
    }

    /// Returns the type header
    fn header(&self) -> (header: &Header) {
        &self.type_header
    }
}

impl Enum {
    /// Creates a new `Enum` object from the given data
    pub fn create(
        type_header: Header,
        name: Option<String>,
        size: usize,
        named_value_list: Vec<NamedValue>,
        signed: bool,
    ) -> (r: Self)
        ensures
            r.type_header == type_header,
            r.data == (Data { name, size, named_value_list, signed }),
    {
        Self { type_header, data: Data { name, size, named_value_list, signed } }
    }

    /// Creates a new `Enum` object
    pub fn new<R: Readable>(
        reader: &mut Reader<R>,
        file_header: &FileHeader,
        type_header: Header,
    ) -> (r: Result<Self, Error>)
        ensures
            final(reader).same_source(old(reader)),
            view_agrees(
                r,
                enum32_at(
                    old(reader).content(),
                    old(reader).endianness,
                    *file_header,
                    old(reader).offset as int,
                    type_header,
                ),
                old(reader).reliable(),
            ),
            r is Ok ==> final(reader).offset == old(reader).offset + tail_size(type_header),
    {
        match type_header.kind() {
            Kind::Enum => {},
            _ => {
                return Err(Error::new(ErrorKind::InvalidBTFKind, "Invalid type kind: expected Enum"));
            },
        }
        if type_header.vlen() > usize::MAX / ENUM_VALUE_SIZE {
            return Err(Error::new(ErrorKind::InvalidTypeSectionOffset, "Invalid type section offset"));
        }
        check_tail(file_header, reader.offset(), Data::size(&type_header))?;
        let data = Data::new(reader, file_header, &type_header)?;
        Ok(Self { type_header, data })
    }

    /// Returns the `name` field of the type
    pub fn name(&self) -> (name: &Option<String>)
        ensures
            *name == self.data.name,
    {
        &self.data.name
    }

    /// Returns the `size` field of the type
    pub fn size(&self) -> (size: &usize)
        ensures
            *size == self.data.size,
    {
        &self.data.size
    }

    /// Returns the `named_value_list` field of the type
    pub fn named_value_list(&self) -> (named_value_list: &Vec<NamedValue>)
        ensures
            *named_value_list == self.data.named_value_list,
    {
        &self.data.named_value_list
    }

    /// Returns the `signed` field of the type
    pub fn signed(&self) -> (signed: &bool)
        ensures
            *signed == self.data.signed,
    {
        &self.data.signed
    }
}

} // verus!
