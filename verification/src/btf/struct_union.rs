use crate::btf::error::{and_then, Error, ErrorKind};
use crate::btf::file_header::FileHeader;
use crate::btf::header::Header;
use crate::btf::kind::Kind;
use crate::btf::model::{check_tail, clone_name, lemma_views_push, name_view, tail_fits, view_agrees, views, TypeRecord};
use crate::btf::readable::Readable;
use crate::btf::string::{name_at, parse_name};
use crate::btf::type_trait::Type;
use crate::utils::reader::{u32_at, Endianness, Reader};
use vstd::prelude::*;
use crate::btf::offset::Offset;

verus! {

/// The size required to hold the extra data for a single member
pub const MEMBER_VALUE_SIZE: usize = 12;

/// A single member for a struct or union
#[derive(Debug)]
pub struct Member {
    /// The raw string section offset
    pub name_offset: u32,
    /// The member name
    pub name: Option<String>,
    /// The member type id
    pub tid: u32,
    /// The member offset
    pub offset: Offset,
}

/// What a member of a struct or union is.
pub struct MemberModel {
    /// The raw string section offset
    pub name_offset: u32,
    /// The member name
    pub name: Option<Seq<char>>,
    /// The member type id
    pub tid: u32,
    /// The member offset
    pub offset: Offset,
}

impl View for Member {
    type V = MemberModel;

    open spec fn view(&self) -> MemberModel {
        MemberModel { name_offset: self.name_offset, name: name_view(self.name), tid: self.tid, offset: self.offset }
    }
}

impl Clone for Member {
    fn clone(&self) -> (copy: Self)
        ensures
            copy@ == self@,
    {
        Member { name_offset: self.name_offset, name: clone_name(&self.name), tid: self.tid, offset: self.offset }
    }
}

impl Member {
    /// Returns the raw string section offset
    pub fn name_offset(&self) -> (name_offset: u32)
        ensures
            name_offset == self.name_offset,
    {
        self.name_offset
    }

    /// Returns the member name
    pub fn name(&self) -> (name: Option<String>)
        ensures
            name_view(name) == name_view(self.name),
    {
        clone_name(&self.name)
    }

    /// Returns the type id of the member
    pub fn tid(&self) -> (tid: u32)
        ensures
            tid == self.tid,
    {
        self.tid
    }

    /// Returns the type id of the member, under its longer name
    pub fn type_id(&self) -> (type_id: u32)
        ensures
            type_id == self.tid,
    {
        self.tid
    }

    /// Returns the offset of the member
    pub fn offset(&self) -> (offset: Offset)
        ensures
            offset == self.offset,
    {
        self.offset
    }

    /// Creates a new `Member` instance from its fields
    pub fn create(
        name_offset: u32,
        name: Option<String>,
        tid: u32,
        offset: Offset,
    ) -> (member: Self)
        ensures
            member == (Member { name_offset, name, tid, offset }),
    {
        Self { name_offset, name, tid, offset }
    }
}

/// A list of struct or union members
pub type MemberList = Vec<Member>;

/// The bit offset in the raw offset of a member of a struct or union with the kind flag: the
/// low 24 bits.
pub open spec fn raw_bit_offset(raw_offset: u32) -> u32 {
    raw_offset & 0xFFFFFF
}

/// The bit size in the raw offset of a member of a struct or union with the kind flag: the
/// high 8 bits.
pub open spec fn raw_bit_size(raw_offset: u32) -> u32 {
    (raw_offset >> 24) & 0xFF
}

/// Where a member lies, told by its raw offset. Without the kind flag the raw offset counts
/// bits and has to be a multiple of 8, else `InvalidOffset`. With the kind flag it holds a
/// bit offset and a bit size; a member of bit size 0 at a bit offset that is a multiple of 8
/// lies at a byte offset, every other one is a bitfield.
pub open spec fn member_offset(kind_flag: bool, raw_offset: u32) -> Result<Offset, ErrorKind> {
    if !kind_flag {
        if raw_offset % 8 == 0 {
            Ok(Offset::ByteOffset(raw_offset / 8))
        } else {
            Err(ErrorKind::InvalidOffset)
        }
    } else {
        if raw_bit_size(raw_offset) == 0 && raw_bit_offset(raw_offset) % 8 == 0 {
            Ok(Offset::ByteOffset(raw_bit_offset(raw_offset) / 8))
        } else {
            Ok(Offset::BitOffsetAndSize(raw_bit_offset(raw_offset), raw_bit_size(raw_offset)))
        }
    }
}

/// The member in the twelve bytes at `offset` of `content`: the name offset, the type id and
/// the raw offset, each of four bytes.
pub open spec fn member_at(
    content: Seq<u8>,
    endianness: Endianness,
    file_header: FileHeader,
    offset: int,
    kind_flag: bool,
) -> Result<MemberModel, ErrorKind> {
    and_then(u32_at(content, endianness, offset), |name_offset: u32|
        and_then(u32_at(content, endianness, offset + 4), |tid: u32|
            and_then(u32_at(content, endianness, offset + 8), |raw_offset: u32|
                and_then(name_at(content, endianness, file_header, name_offset), |name: Option<Seq<char>>|
                    and_then(member_offset(kind_flag, raw_offset), |offset: Offset|
                        Ok(MemberModel { name_offset, name, tid, offset }))))))
}

/// The `count` members that lie one behind the other from `offset` of `content` on.
pub open spec fn members_at(
    content: Seq<u8>,
    endianness: Endianness,
    file_header: FileHeader,
    offset: int,
    kind_flag: bool,
    count: nat,
) -> Result<Seq<MemberModel>, ErrorKind>
    decreases count,
{
    if count == 0 {
        Ok(Seq::empty())
    } else {
        and_then(members_at(
            content,
            endianness,
            file_header,
            offset,
            kind_flag,
            (count - 1) as nat,
        ), |front: Seq<MemberModel>|
            and_then(member_at(
                content,
                endianness,
                file_header,
                offset + MEMBER_VALUE_SIZE * (count - 1),
                kind_flag,
            ), |last: MemberModel|
                Ok(front.push(last))))
    }
}

/// A list fails as its first element that fails does, however many
/// elements follow.
pub proof fn lemma_members_failure(
    content: Seq<u8>,
    endianness: Endianness,
    file_header: FileHeader,
    offset: int,
    kind_flag: bool,
    failing: nat,
    count: nat,
)
    requires
        failing <= count,
        members_at(content, endianness, file_header, offset, kind_flag, failing) is Err,
    ensures
        members_at(
            content,
            endianness,
            file_header,
            offset,
            kind_flag,
            count,
        ) == members_at(content, endianness, file_header, offset, kind_flag, failing),
    decreases count,
{
    if failing < count {
        lemma_members_failure(
            content,
            endianness,
            file_header,
            offset,
            kind_flag,
            failing,
            (count - 1) as nat,
        );
    }
}

/// Reads one element of the list
fn read_member<R: Readable>(
    reader: &mut Reader<R>,
    file_header: &FileHeader,
    kind_flag: bool,
) -> (r: Result<Member, Error>)
    ensures
        final(reader).same_source(old(reader)),
        view_agrees(
            r,
            member_at(
                old(reader).content(),
                old(reader).endianness,
                *file_header,
                old(reader).offset as int,
                kind_flag,
            ),
            old(reader).reliable(),
        ),
        r is Ok ==> final(reader).offset == old(reader).offset + MEMBER_VALUE_SIZE,
{
    let name_offset = reader.u32()?;
    let tid = reader.u32()?;
    let raw_offset = reader.u32()?;
    let name = parse_name(reader, file_header, name_offset)?;
    let offset = if !kind_flag {
        if (raw_offset % 8) == 0 {
            Offset::ByteOffset(raw_offset / 8)
        } else {
            return Err(
                Error::new(
                    ErrorKind::InvalidOffset,
                    "Unaligned bit offset for struct/union member with kind_flag=false",
                ),
            );
        }
    } else {
        let bit_offset = raw_offset & 0xFFFFFF;
        let bit_size = (raw_offset >> 24) & 0xFF;
        if bit_size == 0 && (bit_offset % 8) == 0 {
            Offset::ByteOffset(bit_offset / 8)
        } else {
            Offset::BitOffsetAndSize(bit_offset, bit_size)
        }
    };
    Ok(Member { name_offset, name, tid, offset })
}

/// Reads the list of `count` elements
fn read_members<R: Readable>(
    reader: &mut Reader<R>,
    file_header: &FileHeader,
    kind_flag: bool,
    count: usize,
) -> (r: Result<Vec<Member>, Error>)
    ensures
        final(reader).same_source(old(reader)),
        match r {
            Ok(list) => members_at(
                old(reader).content(),
                old(reader).endianness,
                *file_header,
                old(reader).offset as int,
                kind_flag,
                count as nat,
            )
                == Ok::<Seq<MemberModel>, ErrorKind>(views(list@)),
            Err(e) => members_at(
                old(reader).content(),
                old(reader).endianness,
                *file_header,
                old(reader).offset as int,
                kind_flag,
                count as nat,
            )
                == Err::<Seq<MemberModel>, ErrorKind>(e.kind) || (!old(reader).reliable() && e.kind == ErrorKind::IOError),
        },
        r is Ok ==> final(reader).offset == old(reader).offset + MEMBER_VALUE_SIZE * count,
{
    let ghost content = reader.content();
    let ghost endianness = reader.endianness;
    let ghost start = reader.offset as int;
    let mut list: Vec<Member> = Vec::new();
    let mut i: usize = 0;
    proof {
        assert(views(list@) =~= Seq::empty());
    }
    while i < count
        invariant
            i <= count,
            reader.same_source(old(reader)),
            content == reader.content(),
            endianness == reader.endianness,
            start == old(reader).offset,
            reader.offset == start + MEMBER_VALUE_SIZE * i,
            members_at(
                content,
                endianness,
                *file_header,
                start,
                kind_flag,
                i as nat,
            ) == Ok::<Seq<MemberModel>, ErrorKind>(views(list@)),
        decreases count - i,
    {
        let element = match read_member(reader, file_header, kind_flag) {
            Ok(element) => element,
            Err(e) => {
                proof {
                    if members_at(
                        content,
                        endianness,
                        *file_header,
                        start,
                        kind_flag,
                        (i + 1) as nat,
                    ) is Err {
                        lemma_members_failure(
                            content,
                            endianness,
                            *file_header,
                            start,
                            kind_flag,
                            (i + 1) as nat,
                            count as nat,
                        );
                    }
                }
                return Err(e);
            },
        };
        proof {
            lemma_views_push(list@, element);
        }
        list.push(element);
        i += 1;
    }
    Ok(list)
}

/// Copies a list
fn clone_list(list: &Vec<Member>) -> (copy: Vec<Member>)
    ensures
        views(copy@) == views(list@),
{
    let mut copy: Vec<Member> = Vec::new();
    let mut i: usize = 0;
    proof {
        assert(views(copy@) =~= views(list@.subrange(0, 0)));
    }
    while i < list.len()
        invariant
            i <= list.len(),
            views(copy@) == views(list@.subrange(0, i as int)),
        decreases list.len() - i,
    {
        let element = list[i].clone();
        proof {
            lemma_views_push(copy@, element);
            lemma_views_push(list@.subrange(0, i as int), list@[i as int]);
            assert(list@.subrange(0, i as int).push(list@[i as int]) =~= list@.subrange(0, i + 1));
        }
        copy.push(element);
        i += 1;
    }
    proof {
        assert(list@.subrange(0, list@.len() as int) =~= list@);
    }
    copy
}

/// Struct or union data
#[derive(Debug)]
pub struct Data {
    /// The struct or union name
    pub name: Option<String>,
    /// The total size of the structure, in bytes
    pub size: usize,
    /// The full member list for this struct or union
    pub member_list: Vec<Member>,
}

/// What a `Struct` or `Union` type holds besides its header.
pub struct DataModel {
    /// The struct or union name
    pub name: Option<Seq<char>>,
    /// The total size of the structure, in bytes
    pub size: usize,
    /// The full member list for this struct or union
    pub member_list: Seq<MemberModel>,
}

impl View for Data {
    type V = DataModel;

    open spec fn view(&self) -> DataModel {
        DataModel {
            name: name_view(self.name),
            size: self.size,
            member_list: views(self.member_list@),
        }
    }
}

impl Clone for Data {
    fn clone(&self) -> (copy: Self)
        ensures
            copy@ == self@,
    {
        Data {
            name: clone_name(&self.name),
            size: self.size,
            member_list: clone_list(&self.member_list),
        }
    }
}

/// The number of bytes in the tail of a `Struct` or `Union` type.
pub open spec fn tail_size(type_header: Header) -> int {
    type_header.vlen * MEMBER_VALUE_SIZE
}

/// The data of the struct or union whose members lie from `offset` of `content` on: the
/// members, as many as the header counts, the name, and the size in the header.
pub open spec fn data_at(
    content: Seq<u8>,
    endianness: Endianness,
    file_header: FileHeader,
    offset: int,
    type_header: Header,
) -> Result<DataModel, ErrorKind> {
    and_then(members_at(
        content,
        endianness,
        file_header,
        offset,
        type_header.kind_flag,
        type_header.vlen as nat,
    ), |member_list: Seq<MemberModel>|
        and_then(name_at(content, endianness, file_header, type_header.name_offset), |name: Option<Seq<char>>|
            Ok(DataModel { name, size: type_header.size_or_type as usize, member_list })))
}

impl Data {
    /// The size of the extra data
    pub fn size(type_header: &Header) -> (size: usize)
        requires
            type_header.vlen * MEMBER_VALUE_SIZE <= usize::MAX,
        ensures
            size == tail_size(*type_header),
    {
        type_header.vlen() * MEMBER_VALUE_SIZE
    }

    /// Creates a new `Data` object
    pub fn new<R: Readable>(
        reader: &mut Reader<R>,
        file_header: &FileHeader,
        type_header: &Header,
    ) -> (r: Result<Self, Error>)
        ensures
            final(reader).same_source(old(reader)),
            view_agrees(
                r,
                data_at(
                    old(reader).content(),
                    old(reader).endianness,
                    *file_header,
                    old(reader).offset as int,
                    *type_header,
                ),
                old(reader).reliable(),
            ),
            r is Ok ==> final(reader).offset == old(reader).offset + tail_size(*type_header),
    {
        let member_list = read_members(reader, file_header, type_header.kind_flag(), type_header.vlen())?;
        let name = parse_name(reader, file_header, type_header.name_offset())?;
        Ok(Self { name, size: type_header.size_or_type() as usize, member_list })
    }
}

/// The struct whose tail lies at `offset` of `content`, for the header that
/// stands before it. The header has to be of the kind `Struct` and the tail has
/// to lie inside the type section.
pub open spec fn struct_at(
    content: Seq<u8>,
    endianness: Endianness,
    file_header: FileHeader,
    offset: int,
    type_header: Header,
) -> Result<TypeRecord<DataModel>, ErrorKind> {
    if type_header.kind != Kind::Struct {
        Err(ErrorKind::InvalidBTFKind)
    } else {
        and_then(tail_fits(file_header, offset, tail_size(type_header)), |fits: ()|
            and_then(data_at(content, endianness, file_header, offset, type_header), |data: DataModel|
                Ok(TypeRecord { header: type_header, data })))
    }
}

/// Represents a `Struct` type.
#[derive(Debug)]
pub struct Struct {
    /// Type header
    pub type_header: Header,
    /// Type data
    pub data: Data,
}

impl View for Struct {
    type V = TypeRecord<DataModel>;

    open spec fn view(&self) -> TypeRecord<DataModel> {
        TypeRecord { header: self.type_header, data: self.data@ }
    }
}

impl Clone for Struct {
    fn clone(&self) -> (copy: Self)
        ensures
            copy@ == self@,
    {
        Struct { type_header: self.type_header, data: self.data.clone() }
    }
}

impl Type for Struct {
    open spec fn type_header(&self) -> Header {
        self.type_header
    }

    /// Returns the type header
    fn header(&self) -> (header: &Header) {
        &self.type_header
    }
}

impl Struct {
    /// Creates a new `Struct` object from the given data
    pub fn create(
        type_header: Header,
        name: Option<String>,
        size: usize,
        member_list: Vec<Member>,
    ) -> (r: Self)
        ensures
            r.type_header == type_header,
            r.data == (Data { name, size, member_list }),
    {
        Self { type_header, data: Data { name, size, member_list } }
    }

    /// Creates a new `Struct` object
    pub fn new<R: Readable>(
        reader: &mut Reader<R>,
        file_header: &FileHeader,
        type_header: Header,
    ) -> (r: Result<Self, Error>)
        ensures
            final(reader).same_source(old(reader)),
            view_agrees(
                r,
                struct_at(
                    old(reader).content(),
                    old(reader).endianness,
                    *file_header,
                    old(reader).offset as int,
                    type_header,
                ),
                old(reader).reliable(),
            ),
            r is Ok ==> final(reader).offset == old(reader).offset + tail_size(type_header),
    {
        match type_header.kind() {
            Kind::Struct => {},
            _ => {
                return Err(Error::new(ErrorKind::InvalidBTFKind, "Invalid type kind: expected Struct"));
            },
        }
        if type_header.vlen() > usize::MAX / MEMBER_VALUE_SIZE {
            return Err(Error::new(ErrorKind::InvalidTypeSectionOffset, "Invalid type section offset"));
        }
        check_tail(file_header, reader.offset(), Data::size(&type_header))?;
        let data = Data::new(reader, file_header, &type_header)?;
        Ok(Self { type_header, data })
    }

    /// Returns the `name` field of the type
    pub fn name(&self) -> (name: &Option<String>)
        ensures
            *name == self.data.name,
    {
        &self.data.name
    }

    /// Returns the `size` field of the type
    pub fn size(&self) -> (size: &usize)
        ensures
            *size == self.data.size,
    {
        &self.data.size
    }

    /// Returns the `member_list` field of the type
    pub fn member_list(&self) -> (member_list: &Vec<Member>)
        ensures
            *member_list == self.data.member_list,
    {
        &self.data.member_list
    }
}

/// The union whose tail lies at `offset` of `content`, for the header that
/// stands before it. The header has to be of the kind `Union` and the tail has
/// to lie inside the type section.
pub open spec fn union_at(
    content: Seq<u8>,
    endianness: Endianness,
    file_header: FileHeader,
    offset: int,
    type_header: Header,
) -> Result<TypeRecord<DataModel>, ErrorKind> {
    if type_header.kind != Kind::Union {
        Err(ErrorKind::InvalidBTFKind)
    } else {
        and_then(tail_fits(file_header, offset, tail_size(type_header)), |fits: ()|
            and_then(data_at(content, endianness, file_header, offset, type_header), |data: DataModel|
                Ok(TypeRecord { header: type_header, data })))
    }
}

/// Represents a `Union` type.
#[derive(Debug)]
pub struct Union {
    /// Type header
    pub type_header: Header,
    /// Type data
    pub data: Data,
}

impl View for Union {
    type V = TypeRecord<DataModel>;

    open spec fn view(&self) -> TypeRecord<DataModel> {
        TypeRecord { header: self.type_header, data: self.data@ }
    }
}

impl Clone for Union {
    fn clone(&self) -> (copy: Self)
        ensures
            copy@ == self@,
    {
        Union { type_header: self.type_header, data: self.data.clone() }
    }
}

impl Type for Union {
    open spec fn type_header(&self) -> Header {
        self.type_header
    }

    /// Returns the type header
    fn header(&self) -> (header: &Header) {
        &self.type_header
    }
}

impl Union {
    /// Creates a new `Union` object from the given data
    pub fn create(
        type_header: Header,
        name: Option<String>,
        size: usize,
        member_list: Vec<Member>,
    ) -> (r: Self)
        ensures
            r.type_header == type_header,
            r.data == (Data { name, size, member_list }),
    {
        Self { type_header, data: Data { name, size, member_list } }
    }

    /// Creates a new `Union` object
    pub fn new<R: Readable>(
        reader: &mut Reader<R>,
        file_header: &FileHeader,
        type_header: Header,
    ) -> (r: Result<Self, Error>)
        ensures
            final(reader).same_source(old(reader)),
            view_agrees(
                r,
                union_at(
                    old(reader).content(),
                    old(reader).endianness,
                    *file_header,
                    old(reader).offset as int,
                    type_header,
                ),
                old(reader).reliable(),
            ),
            r is Ok ==> final(reader).offset == old(reader).offset + tail_size(type_header),
    {
        match type_header.kind() {
            Kind::Union => {},
            _ => {
                return Err(Error::new(ErrorKind::InvalidBTFKind, "Invalid type kind: expected Union"));
            },
        }
        if type_header.vlen() > usize::MAX / MEMBER_VALUE_SIZE {
            return Err(Error::new(ErrorKind::InvalidTypeSectionOffset, "Invalid type section offset"));
        }
        check_tail(file_header, reader.offset(), Data::size(&type_header))?;
        let data = Data::new(reader, file_header, &type_header)?;
        Ok(Self { type_header, data })
    }

    /// Returns the `name` field of the type
    pub fn name(&self) -> (name: &Option<String>)
        ensures
            *name == self.data.name,
    {
        &self.data.name
    }

    /// Returns the `size` field of the type
    pub fn size(&self) -> (size: &usize)
        ensures
            *size == self.data.size,
    {
        &self.data.size
    }

    /// Returns the `member_list` field of the type
    pub fn member_list(&self) -> (member_list: &Vec<Member>)
        ensures
            *member_list == self.data.member_list,
    {
        &self.data.member_list
    }
}

} // verus!
