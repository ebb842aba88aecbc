use crate::btf::error::{and_then, Error, ErrorKind};
use crate::btf::file_header::FileHeader;
use crate::btf::header::Header;
use crate::btf::kind::Kind;
use crate::btf::model::{check_tail, clone_name, lemma_views_push, name_view, tail_fits, view_agrees, views, TypeRecord};
use crate::btf::readable::Readable;
use crate::btf::string::{name_at, parse_name, parse_string, string_at};
use crate::btf::type_trait::Type;
use crate::utils::reader::{i64_at, u32_at, u64_at, Endianness, Reader};
use vstd::prelude::*;
use crate::utils::text::str_eq;

verus! {

/// The size of the extra data (one per enum value)
pub const ENUM64_VALUE_SIZE: usize = 12;

/// Represents an enum value
#[derive(Debug, Clone, Copy, PartialEq, Eq, Structural)]
pub enum IntegerValue {
    /// The signed value
    Signed(i64),
    /// The unsigned value
    Unsigned(u64),
}

/// Represents a single enum value
#[derive(Debug)]
pub struct NamedValue {
    /// The name of the value
    pub name: String,
    /// The integer value
    pub value: IntegerValue,
}

/// What a single enum value is.
pub struct NamedValueModel {
    /// The name of the value
    pub name: Seq<char>,
    /// The integer value
    pub value: IntegerValue,
}

impl View for NamedValue {
    type V = NamedValueModel;

    open spec fn view(&self) -> NamedValueModel {
        NamedValueModel { name: self.name@, value: self.value }
    }
}

impl Clone for NamedValue {
    fn clone(&self) -> (copy: Self)
        ensures
            copy@ == self@,
    {
        NamedValue { name: self.name.clone(), value: self.value }
    }
}

/// Represents a list of enum values
pub type NamedValueList = Vec<NamedValue>;

/// The value in the bytes at `offset` of `content`: signed or unsigned, as the enum is.
pub open spec fn integer_value_at(
    content: Seq<u8>,
    endianness: Endianness,
    offset: int,
    signed: bool,
) -> Result<IntegerValue, ErrorKind> {
    if signed {
        and_then(i64_at(content, endianness, offset), |value: i64| Ok(IntegerValue::Signed(value)))
    } else {
        and_then(u64_at(content, endianness, offset), |value: u64| Ok(IntegerValue::Unsigned(value)))
    }
}

/// The enum value in the twelve bytes at `offset` of `content`: the offset of its name, of four
/// bytes, and the value. The name is the string at its offset, also where that is zero.
pub open spec fn named_value_at(
    content: Seq<u8>,
    endianness: Endianness,
    file_header: FileHeader,
    offset: int,
    signed: bool,
) -> Result<NamedValueModel, ErrorKind> {
    and_then(u32_at(content, endianness, offset), |name_offset: u32|
        and_then(string_at(content, endianness, file_header, name_offset), |name: Seq<char>|
            and_then(integer_value_at(content, endianness, offset + 4, signed), |value: IntegerValue|
                Ok(NamedValueModel { name, value }))))
}

/// The `count` enum values that lie one behind the other from `offset` of `content` on.
pub open spec fn named_values_at(
    content: Seq<u8>,
    endianness: Endianness,
    file_header: FileHeader,
    offset: int,
    signed: bool,
    count: nat,
) -> Result<Seq<NamedValueModel>, ErrorKind>
    decreases count,
{
    if count == 0 {
        Ok(Seq::empty())
    } else {
        and_then(named_values_at(
            content,
            endianness,
            file_header,
            offset,
            signed,
            (count - 1) as nat,
        ), |front: Seq<NamedValueModel>|
            and_then(named_value_at(
                content,
                endianness,
                file_header,
                offset + ENUM64_VALUE_SIZE * (count - 1),
                signed,
            ), |last: NamedValueModel|
                Ok(front.push(last))))
    }
}

/// A list fails as its first element that fails does, however many
/// elements follow.
pub proof fn lemma_named_values_failure(
    content: Seq<u8>,
    endianness: Endianness,
    file_header: FileHeader,
    offset: int,
    signed: bool,
    failing: nat,
    count: nat,
)
    requires
        failing <= count,
        named_values_at(content, endianness, file_header, offset, signed, failing) is Err,
    ensures
        named_values_at(
            content,
            endianness,
            file_header,
            offset,
            signed,
            count,
        ) == named_values_at(content, endianness, file_header, offset, signed, failing),
    decreases count,
{
    if failing < count {
        lemma_named_values_failure(
            content,
            endianness,
            file_header,
            offset,
            signed,
            failing,
            (count - 1) as nat,
        );
    }
}

/// Reads one element of the list
fn read_named_value<R: Readable>(
    reader: &mut Reader<R>,
    file_header: &FileHeader,
    signed: bool,
) -> (r: Result<NamedValue, Error>)
    ensures
        final(reader).same_source(old(reader)),
        view_agrees(
            r,
            named_value_at(
                old(reader).content(),
                old(reader).endianness,
                *file_header,
                old(reader).offset as int,
                signed,
            ),
            old(reader).reliable(),
        ),
        r is Ok ==> final(reader).offset == old(reader).offset + ENUM64_VALUE_SIZE,
{
    let name_offset = reader.u32()?;
    let name = parse_string(reader, file_header, name_offset)?;
    let value = if signed {
        IntegerValue::Signed(reader.i64()?)
    } else {
        IntegerValue::Unsigned(reader.u64()?)
    };
    Ok(NamedValue { name, value })
}

/// Reads the list of `count` elements
fn read_named_values<R: Readable>(
    reader: &mut Reader<R>,
    file_header: &FileHeader,
    signed: bool,
    count: usize,
) -> (r: Result<Vec<NamedValue>, Error>)
    ensures
        final(reader).same_source(old(reader)),
        match r {
            Ok(list) => named_values_at(
                old(reader).content(),
                old(reader).endianness,
                *file_header,
                old(reader).offset as int,
                signed,
                count as nat,
            )
                == Ok::<Seq<NamedValueModel>, ErrorKind>(views(list@)),
            Err(e) => named_values_at(
                old(reader).content(),
                old(reader).endianness,
                *file_header,
                old(reader).offset as int,
                signed,
                count as nat,
            )
                == Err::<Seq<NamedValueModel>, ErrorKind>(e.kind) || (!old(reader).reliable() && e.kind == ErrorKind::IOError),
        },
        r is Ok ==> final(reader).offset == old(reader).offset + ENUM64_VALUE_SIZE * count,
{
    let ghost content = reader.content();
    let ghost endianness = reader.endianness;
    let ghost start = reader.offset as int;
    let mut list: Vec<NamedValue> = Vec::new();
    let mut i: usize = 0;
    proof {
        assert(views(list@) =~= Seq::empty());
    }
    while i < count
        invariant
            i <= count,
            reader.same_source(old(reader)),
            content == reader.content(),
            endianness == reader.endianness,
            start == old(reader).offset,
            reader.offset == start + ENUM64_VALUE_SIZE * i,
            named_values_at(
                content,
                endianness,
                *file_header,
                start,
                signed,
                i as nat,
            ) == Ok::<Seq<NamedValueModel>, ErrorKind>(views(list@)),
        decreases count - i,
    {
        let element = match read_named_value(reader, file_header, signed) {
            Ok(element) => element,
            Err(e) => {
                proof {
                    if named_values_at(
                        content,
                        endianness,
                        *file_header,
                        start,
                        signed,
                        (i + 1) as nat,
                    ) is Err {
                        lemma_named_values_failure(
                            content,
                            endianness,
                            *file_header,
                            start,
                            signed,
                            (i + 1) as nat,
                            count as nat,
                        );
                    }
                }
                return Err(e);
            },
        };
        proof {
            lemma_views_push(list@, element);
        }
        list.push(element);
        i += 1;
    }
    Ok(list)
}

/// Copies a list
fn clone_list(list: &Vec<NamedValue>) -> (copy: Vec<NamedValue>)
    ensures
        views(copy@) == views(list@),
{
    let mut copy: Vec<NamedValue> = Vec::new();
    let mut i: usize = 0;
    proof {
        assert(views(copy@) =~= views(list@.subrange(0, 0)));
    }
    while i < list.len()
        invariant
            i <= list.len(),
            views(copy@) == views(list@.subrange(0, i as int)),
        decreases list.len() - i,
    {
        let element = list[i].clone();
        proof {
            lemma_views_push(copy@, element);
            lemma_views_push(list@.subrange(0, i as int), list@[i as int]);
            assert(list@.subrange(0, i as int).push(list@[i as int]) =~= list@.subrange(0, i + 1));
        }
        copy.push(element);
        i += 1;
    }
    proof {
        assert(list@.subrange(0, list@.len() as int) =~= list@);
    }
    copy
}

/// The values of the entries of a list that have the name `name`, in the order of the list.
pub open spec fn values_named(list: Seq<NamedValueModel>, name: Seq<char>) -> Seq<IntegerValue>
    decreases list.len(),
{
    if list.len() == 0 {
        Seq::empty()
    } else if list.last().name == name {
        values_named(list.drop_last(), name).push(list.last().value)
    } else {
        values_named(list.drop_last(), name)
    }
}

/// The names of the entries of a list that have the value `value`, in the order of the list.
pub open spec fn names_valued(list: Seq<NamedValueModel>, value: IntegerValue) -> Seq<Seq<char>>
    decreases list.len(),
{
    if list.len() == 0 {
        Seq::empty()
    } else if list.last().value == value {
        names_valued(list.drop_last(), value).push(list.last().name)
    } else {
        names_valued(list.drop_last(), value)
    }
}

/// The texts of a list of strings.
pub open spec fn texts(names: Seq<String>) -> Seq<Seq<char>> {
    Seq::new(names.len(), |i: int| names[i]@)
}

/// What a list of references refers to.
pub open spec fn referred(values: Seq<&IntegerValue>) -> Seq<IntegerValue> {
    Seq::new(values.len(), |i: int| *values[i])
}

/// Enum data
#[derive(Debug)]
pub struct Data {
    /// The enum type name
    pub name: Option<String>,
    /// The enum size, in bytes
    pub size: usize,
    /// A list of enum values
    pub named_value_list: Vec<NamedValue>,
    /// True if the enum is signed
    pub signed: bool,
}

/// What an `Enum64` type holds besides its header.
pub struct DataModel {
    /// The enum type name
    pub name: Option<Seq<char>>,
    /// The enum size, in bytes
    pub size: usize,
    /// A list of enum values
    pub named_value_list: Seq<NamedValueModel>,
    /// True if the enum is signed
    pub signed: bool,
}

impl View for Data {
    type V = DataModel;

    open spec fn view(&self) -> DataModel {
        DataModel {
            name: name_view(self.name),
            size: self.size,
            named_value_list: views(self.named_value_list@),
            signed: self.signed,
        }
    }
}

impl Clone for Data {
    fn clone(&self) -> (copy: Self)
        ensures
            copy@ == self@,
    {
        Data {
            name: clone_name(&self.name),
            size: self.size,
            named_value_list: clone_list(&self.named_value_list),
            signed: self.signed,
        }
    }
}

/// The number of bytes in the tail of an `Enum64` type.
pub open spec fn tail_size(type_header: Header) -> int {
    type_header.vlen * ENUM64_VALUE_SIZE
}

/// The data of the enum whose values lie from `offset` of `content` on: the values, as many
/// as the header counts and signed where the header has the kind flag, the name, and the
/// size in the header.
pub open spec fn data_at(
    content: Seq<u8>,
    endianness: Endianness,
    file_header: FileHeader,
    offset: int,
    type_header: Header,
) -> Result<DataModel, ErrorKind> {
    and_then(named_values_at(
        content,
        endianness,
        file_header,
        offset,
        type_header.kind_flag,
        type_header.vlen as nat,
    ), |named_value_list: Seq<NamedValueModel>|
        and_then(name_at(content, endianness, file_header, type_header.name_offset), |name: Option<Seq<char>>|
            Ok(
                DataModel { name, size: type_header.size_or_type as usize, named_value_list, signed: type_header.kind_flag },
            )))
}

impl Data {
    /// The size of the extra data
    pub fn size(type_header: &Header) -> (size: usize)
        requires
            type_header.vlen * ENUM64_VALUE_SIZE <= usize::MAX,
        ensures
            size == tail_size(*type_header),
    {
        type_header.vlen() * ENUM64_VALUE_SIZE
    }

    /// Creates a new `Data` object
    pub fn new<R: Readable>(
        reader: &mut Reader<R>,
        file_header: &FileHeader,
        type_header: &Header,
    ) -> (r: Result<Self, Error>)
        ensures
            final(reader).same_source(old(reader)),
            view_agrees(
                r,
                data_at(
                    old(reader).content(),
                    old(reader).endianness,
                    *file_header,
                    old(reader).offset as int,
                    *type_header,
                ),
                old(reader).reliable(),
            ),
            r is Ok ==> final(reader).offset == old(reader).offset + tail_size(*type_header),
    {
        let signed = type_header.kind_flag();
        let named_value_list = read_named_values(reader, file_header, signed, type_header.vlen())?;
        let name = parse_name(reader, file_header, type_header.name_offset())?;
        Ok(Self { name, size: type_header.size_or_type() as usize, named_value_list, signed })
    }

    /// Returns the list of enum values
    pub fn value_list(&self) -> (list: &NamedValueList)
        ensures
            *list == self.named_value_list,
    {
        &self.named_value_list
    }

    /// Returns a list of integer values matching the specified name
    pub fn value(&self, name: &str) -> (value_list: Vec<&IntegerValue>)
        ensures
            referred(value_list@) == values_named(self@.named_value_list, name@),
    {
        let mut value_list = Vec::<&IntegerValue>::new();
        let mut i: usize = 0;
        proof {
            assert(views(self.named_value_list@.subrange(0, 0)) =~= Seq::empty());
            assert(referred(value_list@) =~= Seq::empty());
        }
        while i < self.named_value_list.len()
            invariant
                i <= self.named_value_list.len(),
                referred(value_list@) == values_named(
                    views(self.named_value_list@.subrange(0, i as int)),
                    name@,
                ),
            decreases self.named_value_list.len() - i,
        {
            let named_value = &self.named_value_list[i];
            proof {
                let longer = views(self.named_value_list@.subrange(0, i + 1));
                assert(longer.drop_last() =~= views(self.named_value_list@.subrange(0, i as int)));
                assert(longer.last() == named_value@);
                assert(referred(value_list@.push(&named_value.value)) =~= referred(value_list@).push(named_value.value));
            }
            if str_eq(named_value.name.as_str(), name) {
                value_list.push(&named_value.value);
            }
            i += 1;
        }
        proof {
            assert(self.named_value_list@.subrange(0, self.named_value_list@.len() as int) =~= self.named_value_list@);
        }
        value_list
    }

    /// Returns a list of names matching the specified integer value
    pub fn name(&self, value: &IntegerValue) -> (name_list: Vec<String>)
        ensures
            texts(name_list@) == names_valued(self@.named_value_list, *value),
    {
        let mut name_list = Vec::<String>::new();
        let mut i: usize = 0;
        proof {
            assert(views(self.named_value_list@.subrange(0, 0)) =~= Seq::empty());
            assert(texts(name_list@) =~= Seq::empty());
        }
        while i < self.named_value_list.len()
            invariant
                i <= self.named_value_list.len(),
                texts(name_list@) == names_valued(
                    views(self.named_value_list@.subrange(0, i as int)),
                    *value,
                ),
            decreases self.named_value_list.len() - i,
        {
            let named_value = &self.named_value_list[i];
            proof {
                let longer = views(self.named_value_list@.subrange(0, i + 1));
                assert(longer.drop_last() =~= views(self.named_value_list@.subrange(0, i as int)));
                assert(longer.last() == named_value@);
            }
            let same = match (named_value.value, *value) {
                (IntegerValue::Signed(left), IntegerValue::Signed(right)) => left == right,
                (IntegerValue::Unsigned(left), IntegerValue::Unsigned(right)) => left == right,
                _ => false,
            };
            if same {
                let name = named_value.name.clone();
                proof {
                    assert(texts(name_list@.push(name)) =~= texts(name_list@).push(name@));
                }
                name_list.push(name);
            }
            i += 1;
        }
        proof {
            assert(self.named_value_list@.subrange(0, self.named_value_list@.len() as int) =~= self.named_value_list@);
        }
        name_list
    }
}

/// The `Enum64` type whose tail lies at `offset` of `content`, for the header that
/// stands before it. The header has to be of the kind `Enum64` and the tail has
/// to lie inside the type section.
pub open spec fn enum64_at(
    content: Seq<u8>,
    endianness: Endianness,
    file_header: FileHeader,
    offset: int,
    type_header: Header,
) -> Result<TypeRecord<DataModel>, ErrorKind> {
    if type_header.kind != Kind::Enum64 {
        Err(ErrorKind::InvalidBTFKind)
    } else {
        and_then(tail_fits(file_header, offset, tail_size(type_header)), |fits: ()|
            and_then(data_at(content, endianness, file_header, offset, type_header), |data: DataModel|
                Ok(TypeRecord { header: type_header, data })))
    }
}

/// Represents an `Enum64` type.
#[derive(Debug)]
pub struct Enum64 {
    /// Type header
    pub type_header: Header,
    /// Type data
    pub data: Data,
}

impl View for Enum64 {
    type V = TypeRecord<DataModel>;

    open spec fn view(&self) -> TypeRecord<DataModel> {
        TypeRecord { header: self.type_header, data: self.data@ }
    }
}

impl Clone for Enum64 {
    fn clone(&self) -> (copy: Self)
        ensures
            copy@ == self@,
    {
        Enum64 { type_header: self.type_header, data: self.data.clone() }
    }
}

impl Type for Enum64 {
    open spec fn type_header(&self) -> Header {
        self.type_header
    }

    /// Returns the type header
    fn header(&self) -> (header: &Header) {
        &self.type_header
    }
}

impl Enum64 {
    /// Returns the type data
    pub fn data(&self) -> (data: &Data)
        ensures
            *data == self.data,
    {
        &self.data
    }

    /// Creates a new `Enum64` object from the given data
    pub fn create(
        type_header: Header,
        name: Option<String>,
        size: usize,
        named_value_list: Vec<NamedValue>,
        signed: bool,
    ) -> (r: Self)
        ensures
            r.type_header == type_header,
            r.data == (Data { name, size, named_value_list, signed }),
    {
        Self { type_header, data: Data { name, size, named_value_list, signed } }
    }

    /// Creates a new `Enum64` object
    pub fn new<R: Readable>(
        reader: &mut Reader<R>,
        file_header: &FileHeader,
        type_header: Header,
    ) -> (r: Result<Self, Error>)
        ensures
            final(reader).same_source(old(reader)),
            view_agrees(
                r,
                enum64_at(
                    old(reader).content(),
                    old(reader).endianness,
                    *file_header,
                    old(reader).offset as int,
                    type_header,
                ),
                old(reader).reliable(),
            ),
            r is Ok ==> final(reader).offset == old(reader).offset + tail_size(type_header),
    {
        match type_header.kind() {
            Kind::Enum64 => {},
            _ => {
                return Err(Error::new(ErrorKind::InvalidBTFKind, "Invalid type kind: expected Enum64"));
            },
        }
        if type_header.vlen() > usize::MAX / ENUM64_VALUE_SIZE {
            return Err(Error::new(ErrorKind::InvalidTypeSectionOffset, "Invalid type section offset"));
        }
        check_tail(file_header, reader.offset(), Data::size(&type_header))?;
        let data = Data::new(reader, file_header, &type_header)?;
        Ok(Self { type_header, data })
    }

    /// Returns the `name` field of the type
    pub fn name(&self) -> (name: &Option<String>)
        ensures
            *name == self.data.name,
    {
        &self.data.name
    }

    /// Returns the `size` field of the type
    pub fn size(&self) -> (size: &usize)
        ensures
            *size == self.data.size,
    {
        &self.data.size
    }

    /// Returns the `named_value_list` field of the type
    pub fn named_value_list(&self) -> (named_value_list: &Vec<NamedValue>)
        ensures
            *named_value_list == self.data.named_value_list,
    {
        &self.data.named_value_list
    }

    /// Returns the `signed` field of the type
    pub fn signed(&self) -> (signed: &bool)
        ensures
            *signed == self.data.signed,
    {
        &self.data.signed
    }
}

} // verus!
