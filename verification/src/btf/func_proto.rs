use crate::btf::error::{and_then, Error, ErrorKind};
use crate::btf::file_header::FileHeader;
use crate::btf::header::Header;
use crate::btf::kind::Kind;
use crate::btf::model::{check_tail, clone_name, lemma_views_push, name_view, tail_fits, view_agrees, views, TypeRecord};
use crate::btf::readable::Readable;
use crate::btf::string::{name_at, parse_name};
use crate::btf::type_trait::Type;
use crate::utils::reader::{u32_at, Endianness, Reader};
use vstd::prelude::*;

verus! {

/// The size required to hold the extra data for a single parameter
pub const PARAMETER_VALUE_SIZE: usize = 8;

/// A single parameter for a function prototype
#[derive(Debug)]
pub struct Parameter {
    /// The raw string section offset
    pub name_offset: u32,
    /// The parameter name
    pub name: Option<String>,
    /// The parameter type id
    pub tid: u32,
}

/// What a parameter of a function prototype is.
pub struct ParameterModel {
    /// The raw string section offset
    pub name_offset: u32,
    /// The parameter name
    pub name: Option<Seq<char>>,
    /// The parameter type id
    pub tid: u32,
}

impl View for Parameter {
    type V = ParameterModel;

    open spec fn view(&self) -> ParameterModel {
        ParameterModel { name_offset: self.name_offset, name: name_view(self.name), tid: self.tid }
    }
}

impl Clone for Parameter {
    fn clone(&self) -> (copy: Self)
        ensures
            copy@ == self@,
    {
        Parameter { name_offset: self.name_offset, name: clone_name(&self.name), tid: self.tid }
    }
}

impl Parameter {
    /// Returns the raw string section offset
    pub fn name_offset(&self) -> (name_offset: u32)
        ensures
            name_offset == self.name_offset,
    {
        self.name_offset
    }

    /// Returns the parameter name
    pub fn name(&self) -> (name: Option<String>)
        ensures
            name_view(name) == name_view(self.name),
    {
        clone_name(&self.name)
    }

    /// Returns the type id of the parameter
    pub fn tid(&self) -> (tid: u32)
        ensures
            tid == self.tid,
    {
        self.tid
    }
}

/// A list of function prototype parameters
pub type ParameterList = Vec<Parameter>;

/// The parameter in the eight bytes at `offset` of `content`: the name offset and the type
/// id, each of four bytes.
pub open spec fn parameter_at(
    content: Seq<u8>,
    endianness: Endianness,
    file_header: FileHeader,
    offset: int,
) -> Result<ParameterModel, ErrorKind> {
    and_then(u32_at(content, endianness, offset), |name_offset: u32|
        and_then(u32_at(content, endianness, offset + 4), |tid: u32|
            and_then(name_at(content, endianness, file_header, name_offset), |name: Option<Seq<char>>|
                Ok(ParameterModel { name_offset, name, tid }))))
}

/// The `count` parameters that lie one behind the other from `offset` of `content` on.
pub open spec fn parameters_at(
    content: Seq<u8>,
    endianness: Endianness,
    file_header: FileHeader,
    offset: int,
    count: nat,
) -> Result<Seq<ParameterModel>, ErrorKind>
    decreases count,
{
    if count == 0 {
        Ok(Seq::empty())
    } else {
        and_then(parameters_at(
            content,
            endianness,
            file_header,
            offset,
            (count - 1) as nat,
        ), |front: Seq<ParameterModel>|
            and_then(parameter_at(
                content,
                endianness,
                file_header,
                offset + PARAMETER_VALUE_SIZE * (count - 1),
            ), |last: ParameterModel|
                Ok(front.push(last))))
    }
}

/// A list fails as its first element that fails does, however many
/// elements follow.
pub proof fn lemma_parameters_failure(
    content: Seq<u8>,
    endianness: Endianness,
    file_header: FileHeader,
    offset: int,
    failing: nat,
    count: nat,
)
    requires
        failing <= count,
        parameters_at(content, endianness, file_header, offset, failing) is Err,
    ensures
        parameters_at(
            content,
            endianness,
            file_header,
            offset,
            count,
        ) == parameters_at(content, endianness, file_header, offset, failing),
    decreases count,
{
    if failing < count {
        lemma_parameters_failure(content, endianness, file_header, offset, failing, (count - 1) as nat);
    }
}

/// Reads one element of the list
fn read_parameter<R: Readable>(
    reader: &mut Reader<R>,
    file_header: &FileHeader,
) -> (r: Result<Parameter, Error>)
    ensures
        final(reader).same_source(old(reader)),
        view_agrees(
            r,
            parameter_at(
                old(reader).content(),
                old(reader).endianness,
                *file_header,
                old(reader).offset as int,
            ),
            old(reader).reliable(),
        ),
        r is Ok ==> final(reader).offset == old(reader).offset + PARAMETER_VALUE_SIZE,
{
    let name_offset = reader.u32()?;
    let tid = reader.u32()?;
    let name = parse_name(reader, file_header, name_offset)?;
    Ok(Parameter { name_offset, name, tid })
}

/// Reads the list of `count` elements
fn read_parameters<R: Readable>(
    reader: &mut Reader<R>,
    file_header: &FileHeader,
    count: usize,
) -> (r: Result<Vec<Parameter>, Error>)
    ensures
        final(reader).same_source(old(reader)),
        match r {
            Ok(list) => parameters_at(
                old(reader).content(),
                old(reader).endianness,
                *file_header,
                old(reader).offset as int,
                count as nat,
            )
                == Ok::<Seq<ParameterModel>, ErrorKind>(views(list@)),
            Err(e) => parameters_at(
                old(reader).content(),
                old(reader).endianness,
                *file_header,
                old(reader).offset as int,
                count as nat,
            )
                == Err::<Seq<ParameterModel>, ErrorKind>(e.kind) || (!old(reader).reliable() && e.kind == ErrorKind::IOError),
        },
        r is Ok ==> final(reader).offset == old(reader).offset + PARAMETER_VALUE_SIZE * count,
{
    let ghost content = reader.content();
    let ghost endianness = reader.endianness;
    let ghost start = reader.offset as int;
    let mut list: Vec<Parameter> = Vec::new();
    let mut i: usize = 0;
    proof {
        assert(views(list@) =~= Seq::empty());
    }
    while i < count
        invariant
            i <= count,
            reader.same_source(old(reader)),
            content == reader.content(),
            endianness == reader.endianness,
            start == old(reader).offset,
            reader.offset == start + PARAMETER_VALUE_SIZE * i,
            parameters_at(
                content,
                endianness,
                *file_header,
                start,
                i as nat,
            ) == Ok::<Seq<ParameterModel>, ErrorKind>(views(list@)),
        decreases count - i,
    {
        let element = match read_parameter(reader, file_header) {
            Ok(element) => element,
            Err(e) => {
                proof {
                    if parameters_at(content, endianness, *file_header, start, (i + 1) as nat) is Err {
                        lemma_parameters_failure(
                            content,
                            endianness,
                            *file_header,
                            start,
                            (i + 1) as nat,
                            count as nat,
                        );
                    }
                }
                return Err(e);
            },
        };
        proof {
            lemma_views_push(list@, element);
        }
        list.push(element);
        i += 1;
    }
    Ok(list)
}

/// Copies a list
fn clone_list(list: &Vec<Parameter>) -> (copy: Vec<Parameter>)
    ensures
        views(copy@) == views(list@),
{
    let mut copy: Vec<Parameter> = Vec::new();
    let mut i: usize = 0;
    proof {
        assert(views(copy@) =~= views(list@.subrange(0, 0)));
    }
    while i < list.len()
        invariant
            i <= list.len(),
            views(copy@) == views(list@.subrange(0, i as int)),
        decreases list.len() - i,
    {
        let element = list[i].clone();
        proof {
            lemma_views_push(copy@, element);
            lemma_views_push(list@.subrange(0, i as int), list@[i as int]);
            assert(list@.subrange(0, i as int).push(list@[i as int]) =~= list@.subrange(0, i + 1));
        }
        copy.push(element);
        i += 1;
    }
    proof {
        assert(list@.subrange(0, list@.len() as int) =~= list@);
    }
    copy
}

/// Func proto data
#[derive(Debug)]
pub struct Data {
    /// Return type id
    pub return_tid: u32,
    /// The full parameter list for this function prototype
    pub parameter_list: Vec<Parameter>,
}

/// What a `FuncProto` type holds besides its header.
pub struct DataModel {
    /// Return type id
    pub return_tid: u32,
    /// The full parameter list for this function prototype
    pub parameter_list: Seq<ParameterModel>,
}

impl View for Data {
    type V = DataModel;

    open spec fn view(&self) -> DataModel {
        DataModel {
            return_tid: self.return_tid,
            parameter_list: views(self.parameter_list@),
        }
    }
}

impl Clone for Data {
    fn clone(&self) -> (copy: Self)
        ensures
            copy@ == self@,
    {
        Data {
            return_tid: self.return_tid,
            parameter_list: clone_list(&self.parameter_list),
        }
    }
}

/// The number of bytes in the tail of a `FuncProto` type.
pub open spec fn tail_size(type_header: Header) -> int {
    type_header.vlen * PARAMETER_VALUE_SIZE
}

/// The data of the function prototype whose parameters lie from `offset` of `content` on:
/// the parameters, as many as the header counts, and the return type id in the header.
pub open spec fn data_at(
    content: Seq<u8>,
    endianness: Endianness,
    file_header: FileHeader,
    offset: int,
    type_header: Header,
) -> Result<DataModel, ErrorKind> {
    and_then(parameters_at(
        content,
        endianness,
        file_header,
        offset,
        type_header.vlen as nat,
    ), |parameter_list: Seq<ParameterModel>|
        Ok(DataModel { return_tid: type_header.size_or_type, parameter_list }))
}

impl Data {
    /// The size of the extra data
    pub fn size(type_header: &Header) -> (size: usize)
        requires
            type_header.vlen * PARAMETER_VALUE_SIZE <= usize::MAX,
        ensures
            size == tail_size(*type_header),
    {
        type_header.vlen() * PARAMETER_VALUE_SIZE
    }

    /// Creates a new `Data` object
    pub fn new<R: Readable>(
        reader: &mut Reader<R>,
        file_header: &FileHeader,
        type_header: &Header,
    ) -> (r: Result<Self, Error>)
        ensures
            final(reader).same_source(old(reader)),
            view_agrees(
                r,
                data_at(
                    old(reader).content(),
                    old(reader).endianness,
                    *file_header,
                    old(reader).offset as int,
                    *type_header,
                ),
                old(reader).reliable(),
            ),
            r is Ok ==> final(reader).offset == old(reader).offset + tail_size(*type_header),
    {
        let parameter_list = read_parameters(reader, file_header, type_header.vlen())?;
        Ok(Self { return_tid: type_header.size_or_type(), parameter_list })
    }
}

/// The `FuncProto` type whose tail lies at `offset` of `content`, for the header that
/// stands before it. The header has to be of the kind `FuncProto` and the tail has
/// to lie inside the type section.
pub open spec fn func_proto_at(
    content: Seq<u8>,
    endianness: Endianness,
    file_header: FileHeader,
    offset: int,
    type_header: Header,
) -> Result<TypeRecord<DataModel>, ErrorKind> {
    if type_header.kind != Kind::FuncProto {
        Err(ErrorKind::InvalidBTFKind)
    } else {
        and_then(tail_fits(file_header, offset, tail_size(type_header)), |fits: ()|
            and_then(data_at(content, endianness, file_header, offset, type_header), |data: DataModel|
                Ok(TypeRecord { header: type_header, data })))
    }
}

/// Represents a `FuncProto` type.
#[derive(Debug)]
pub struct FuncProto {
    /// Type header
    pub type_header: Header,
    /// Type data
    pub data: Data,
}

impl View for FuncProto {
    type V = TypeRecord<DataModel>;

    open spec fn view(&self) -> TypeRecord<DataModel> {
        TypeRecord { header: self.type_header, data: self.data@ }
    }
}

impl Clone for FuncProto {
    fn clone(&self) -> (copy: Self)
        ensures
            copy@ == self@,
    {
        FuncProto { type_header: self.type_header, data: self.data.clone() }
    }
}

impl Type for FuncProto {
    open spec fn type_header(&self) -> Header {
        self.type_header
    }

    /// Returns the type header
    fn header(&self) -> (header: &Header) {
        &self.type_header
    }
}

impl FuncProto {
    /// Creates a new `FuncProto` object from the given data
    pub fn create(
        type_header: Header,
        return_tid: u32,
        parameter_list: Vec<Parameter>,
    ) -> (r: Self)
        ensures
            r.type_header == type_header,
            r.data == (Data { return_tid, parameter_list }),
    {
        Self { type_header, data: Data { return_tid, parameter_list } }
    }

    /// Creates a new `FuncProto` object
    pub fn new<R: Readable>(
        reader: &mut Reader<R>,
        file_header: &FileHeader,
        type_header: Header,
    ) -> (r: Result<Self, Error>)
        ensures
            final(reader).same_source(old(reader)),
            view_agrees(
                r,
                func_proto_at(
                    old(reader).content(),
                    old(reader).endianness,
                    *file_header,
                    old(reader).offset as int,
                    type_header,
                ),
                old(reader).reliable(),
            ),
            r is Ok ==> final(reader).offset == old(reader).offset + tail_size(type_header),
    {
        match type_header.kind() {
            Kind::FuncProto => {},
            _ => {
                return Err(Error::new(ErrorKind::InvalidBTFKind, "Invalid type kind: expected FuncProto"));
            },
        }
        if type_header.vlen() > usize::MAX / PARAMETER_VALUE_SIZE {
            return Err(Error::new(ErrorKind::InvalidTypeSectionOffset, "Invalid type section offset"));
        }
        check_tail(file_header, reader.offset(), Data::size(&type_header))?;
        let data = Data::new(reader, file_header, &type_header)?;
        Ok(Self { type_header, data })
    }

    /// Returns the `return_tid` field of the type
    pub fn return_tid(&self) -> (return_tid: &u32)
        ensures
            *return_tid == self.data.return_tid,
    {
        &self.data.return_tid
    }

    /// Returns the `parameter_list` field of the type
    pub fn parameter_list(&self) -> (parameter_list: &Vec<Parameter>)
        ensures
            *parameter_list == self.data.parameter_list,
    {
        &self.data.parameter_list
    }
}

} // verus!
