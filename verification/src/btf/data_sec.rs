use crate::btf::error::{and_then, Error, ErrorKind};
use crate::btf::file_header::FileHeader;
use crate::btf::header::Header;
use crate::btf::kind::Kind;
use crate::btf::model::{check_tail, clone_name, lemma_views_push, name_view, tail_fits, view_agrees, views, TypeRecord};
use crate::btf::readable::Readable;
use crate::btf::string::{name_at, parse_name};
use crate::btf::type_trait::Type;
use crate::utils::reader::{u32_at, Endianness, Reader};
use vstd::prelude::*;

verus! {

/// The size of a single variable decl defined in this data section
pub const DATA_SEC_VARIABLE_SIZE: usize = 12;

/// A single variable decl defined in this data section
#[derive(Debug, Clone, Copy)]
pub struct Variable {
    /// The type id of the Var decl
    pub var_decl_id: u32,
    /// The offset of the Var decl inside the data section
    pub offset: u32,
    /// The size of the Var decl
    pub var_size: u32,
}

impl View for Variable {
    type V = Variable;

    open spec fn view(&self) -> Variable {
        *self
    }
}

/// A list of variables
pub type VariableList = Vec<Variable>;

/// The variable in the twelve bytes at `offset` of `content`: the type id of its
/// declaration, its offset in the section and its size, each of four bytes.
pub open spec fn variable_at(
    content: Seq<u8>,
    endianness: Endianness,
    file_header: FileHeader,
    offset: int,
) -> Result<Variable, ErrorKind> {
    and_then(u32_at(content, endianness, offset), |var_decl_id: u32|
        and_then(u32_at(content, endianness, offset + 4), |var_offset: u32|
            and_then(u32_at(content, endianness, offset + 8), |var_size: u32|
                Ok(Variable { var_decl_id, offset: var_offset, var_size }))))
}

/// The `count` variables that lie one behind the other from `offset` of `content` on.
pub open spec fn variables_at(
    content: Seq<u8>,
    endianness: Endianness,
    file_header: FileHeader,
    offset: int,
    count: nat,
) -> Result<Seq<Variable>, ErrorKind>
    decreases count,
{
    if count == 0 {
        Ok(Seq::empty())
    } else {
        and_then(variables_at(
            content,
            endianness,
            file_header,
            offset,
            (count - 1) as nat,
        ), |front: Seq<Variable>|
            and_then(variable_at(
                content,
                endianness,
                file_header,
                offset + DATA_SEC_VARIABLE_SIZE * (count - 1),
            ), |last: Variable|
                Ok(front.push(last))))
    }
}

/// A list fails as its first element that fails does, however many
/// elements follow.
pub proof fn lemma_variables_failure(
    content: Seq<u8>,
    endianness: Endianness,
    file_header: FileHeader,
    offset: int,
    failing: nat,
    count: nat,
)
    requires
        failing <= count,
        variables_at(content, endianness, file_header, offset, failing) is Err,
    ensures
        variables_at(
            content,
            endianness,
            file_header,
            offset,
            count,
        ) == variables_at(content, endianness, file_header, offset, failing),
    decreases count,
{
    if failing < count {
        lemma_variables_failure(content, endianness, file_header, offset, failing, (count - 1) as nat);
    }
}

/// Reads one element of the list
fn read_variable<R: Readable>(
    reader: &mut Reader<R>,
    file_header: &FileHeader,
) -> (r: Result<Variable, Error>)
    ensures
        final(reader).same_source(old(reader)),
        view_agrees(
            r,
            variable_at(
                old(reader).content(),
                old(reader).endianness,
                *file_header,
                old(reader).offset as int,
            ),
            old(reader).reliable(),
        ),
        r is Ok ==> final(reader).offset == old(reader).offset + DATA_SEC_VARIABLE_SIZE,
{
    let var_decl_id = reader.u32()?;
    let offset = reader.u32()?;
    let var_size = reader.u32()?;
    Ok(Variable { var_decl_id, offset, var_size })
}

/// Reads the list of `count` elements
fn read_variables<R: Readable>(
    reader: &mut Reader<R>,
    file_header: &FileHeader,
    count: usize,
) -> (r: Result<Vec<Variable>, Error>)
    ensures
        final(reader).same_source(old(reader)),
        match r {
            Ok(list) => variables_at(
                old(reader).content(),
                old(reader).endianness,
                *file_header,
                old(reader).offset as int,
                count as nat,
            )
                == Ok::<Seq<Variable>, ErrorKind>(views(list@)),
            Err(e) => variables_at(
                old(reader).content(),
                old(reader).endianness,
                *file_header,
                old(reader).offset as int,
                count as nat,
            )
                == Err::<Seq<Variable>, ErrorKind>(e.kind) || (!old(reader).reliable() && e.kind == ErrorKind::IOError),
        },
        r is Ok ==> final(reader).offset == old(reader).offset + DATA_SEC_VARIABLE_SIZE * count,
{
    let ghost content = reader.content();
    let ghost endianness = reader.endianness;
    let ghost start = reader.offset as int;
    let mut list: Vec<Variable> = Vec::new();
    let mut i: usize = 0;
    proof {
        assert(views(list@) =~= Seq::empty());
    }
    while i < count
        invariant
            i <= count,
            reader.same_source(old(reader)),
            content == reader.content(),
            endianness == reader.endianness,
            start == old(reader).offset,
            reader.offset == start + DATA_SEC_VARIABLE_SIZE * i,
            variables_at(
                content,
                endianness,
                *file_header,
                start,
                i as nat,
            ) == Ok::<Seq<Variable>, ErrorKind>(views(list@)),
        decreases count - i,
    {
        let element = match read_variable(reader, file_header) {
            Ok(element) => element,
            Err(e) => {
                proof {
                    if variables_at(content, endianness, *file_header, start, (i + 1) as nat) is Err {
                        lemma_variables_failure(
                            content,
                            endianness,
                            *file_header,
                            start,
                            (i + 1) as nat,
                            count as nat,
                        );
                    }
                }
                return Err(e);
            },
        };
        proof {
            lemma_views_push(list@, element);
        }
        list.push(element);
        i += 1;
    }
    Ok(list)
}

/// Copies a list
fn clone_list(list: &Vec<Variable>) -> (copy: Vec<Variable>)
    ensures
        views(copy@) == views(list@),
{
    let mut copy: Vec<Variable> = Vec::new();
    let mut i: usize = 0;
    proof {
        assert(views(copy@) =~= views(list@.subrange(0, 0)));
    }
    while i < list.len()
        invariant
            i <= list.len(),
            views(copy@) == views(list@.subrange(0, i as int)),
        decreases list.len() - i,
    {
        let element = list[i];
        proof {
            lemma_views_push(copy@, element);
            lemma_views_push(list@.subrange(0, i as int), list@[i as int]);
            assert(list@.subrange(0, i as int).push(list@[i as int]) =~= list@.subrange(0, i + 1));
        }
        copy.push(element);
        i += 1;
    }
    proof {
        assert(list@.subrange(0, list@.len() as int) =~= list@);
    }
    copy
}

/// DataSec data
#[derive(Debug)]
pub struct Data {
    /// The data sec name
    pub name: Option<String>,
    /// The data sec size
    pub size: usize,
    /// A list of variables defined in this data section
    pub variable_list: Vec<Variable>,
}

/// What a `DataSec` type holds besides its header.
pub struct DataModel {
    /// The data sec name
    pub name: Option<Seq<char>>,
    /// The data sec size
    pub size: usize,
    /// A list of variables defined in this data section
    pub variable_list: Seq<Variable>,
}

impl View for Data {
    type V = DataModel;

    open spec fn view(&self) -> DataModel {
        DataModel {
            name: name_view(self.name),
            size: self.size,
            variable_list: views(self.variable_list@),
        }
    }
}

impl Clone for Data {
    fn clone(&self) -> (copy: Self)
        ensures
            copy@ == self@,
    {
        Data {
            name: clone_name(&self.name),
            size: self.size,
            variable_list: clone_list(&self.variable_list),
        }
    }
}

/// The number of bytes in the tail of a `DataSec` type.
pub open spec fn tail_size(type_header: Header) -> int {
    type_header.vlen * DATA_SEC_VARIABLE_SIZE
}

/// The data of the data section whose variables lie from `offset` of `content` on: the
/// variables, as many as the header counts, the name, and the size in the header.
pub open spec fn data_at(
    content: Seq<u8>,
    endianness: Endianness,
    file_header: FileHeader,
    offset: int,
    type_header: Header,
) -> Result<DataModel, ErrorKind> {
    and_then(variables_at(
        content,
        endianness,
        file_header,
        offset,
        type_header.vlen as nat,
    ), |variable_list: Seq<Variable>|
        and_then(name_at(content, endianness, file_header, type_header.name_offset), |name: Option<Seq<char>>|
            Ok(DataModel { name, size: type_header.size_or_type as usize, variable_list })))
}

impl Data {
    /// The size of the extra data
    pub fn size(type_header: &Header) -> (size: usize)
        requires
            type_header.vlen * DATA_SEC_VARIABLE_SIZE <= usize::MAX,
        ensures
            size == tail_size(*type_header),
    {
        type_header.vlen() * DATA_SEC_VARIABLE_SIZE
    }

    /// Creates a new `Data` object
    pub fn new<R: Readable>(
        reader: &mut Reader<R>,
        file_header: &FileHeader,
        type_header: &Header,
    ) -> (r: Result<Self, Error>)
        ensures
            final(reader).same_source(old(reader)),
            view_agrees(
                r,
                data_at(
                    old(reader).content(),
                    old(reader).endianness,
                    *file_header,
                    old(reader).offset as int,
                    *type_header,
                ),
                old(reader).reliable(),
            ),
            r is Ok ==> final(reader).offset == old(reader).offset + tail_size(*type_header),
    {
        let variable_list = read_variables(reader, file_header, type_header.vlen())?;
        let name = parse_name(reader, file_header, type_header.name_offset())?;
        Ok(Self { name, size: type_header.size_or_type() as usize, variable_list })
    }

    /// Returns a copy of the list of variables
    pub fn variable_list(&self) -> (list: VariableList)
        ensures
            views(list@) == views(self.variable_list@),
    {
        clone_list(&self.variable_list)
    }
}

/// The `DataSec` type whose tail lies at `offset` of `content`, for the header that
/// stands before it. The header has to be of the kind `DataSec` and the tail has
/// to lie inside the type section.
pub open spec fn data_sec_at(
    content: Seq<u8>,
    endianness: Endianness,
    file_header: FileHeader,
    offset: int,
    type_header: Header,
) -> Result<TypeRecord<DataModel>, ErrorKind> {
    if type_header.kind != Kind::DataSec {
        Err(ErrorKind::InvalidBTFKind)
    } else {
        and_then(tail_fits(file_header, offset, tail_size(type_header)), |fits: ()|
            and_then(data_at(content, endianness, file_header, offset, type_header), |data: DataModel|
                Ok(TypeRecord { header: type_header, data })))
    }
}

/// Represents a `DataSec` type.
#[derive(Debug)]
pub struct DataSec {
    /// Type header
    pub type_header: Header,
    /// Type data
    pub data: Data,
}

impl View for DataSec {
    type V = TypeRecord<DataModel>;

    open spec fn view(&self) -> TypeRecord<DataModel> {
        TypeRecord { header: self.type_header, data: self.data@ }
    }
}

impl Clone for DataSec {
    fn clone(&self) -> (copy: Self)
        ensures
            copy@ == self@,
    {
        DataSec { type_header: self.type_header, data: self.data.clone() }
    }
}

impl Type for DataSec {
    open spec fn type_header(&self) -> Header {
        self.type_header
    }

    /// Returns the type header
    fn header(&self) -> (header: &Header) {
        &self.type_header
    }
}

impl DataSec {
    /// Returns the type data
    pub fn data(&self) -> (data: &Data)
        ensures
            *data == self.data,
    {
        &self.data
    }

    /// Creates a new `DataSec` object from the given data
    pub fn create(
        type_header: Header,
        name: Option<String>,
        size: usize,
        variable_list: Vec<Variable>,
    ) -> (r: Self)
        ensures
            r.type_header == type_header,
            r.data == (Data { name, size, variable_list }),
    {
        Self { type_header, data: Data { name, size, variable_list } }
    }

    /// Creates a new `DataSec` object
    pub fn new<R: Readable>(
        reader: &mut Reader<R>,
        file_header: &FileHeader,
        type_header: Header,
    ) -> (r: Result<Self, Error>)
        ensures
            final(reader).same_source(old(reader)),
            view_agrees(
                r,
                data_sec_at(
                    old(reader).content(),
                    old(reader).endianness,
                    *file_header,
                    old(reader).offset as int,
                    type_header,
                ),
                old(reader).reliable(),
            ),
            r is Ok ==> final(reader).offset == old(reader).offset + tail_size(type_header),
    {
        match type_header.kind() {
            Kind::DataSec => {},
            _ => {
                return Err(Error::new(ErrorKind::InvalidBTFKind, "Invalid type kind: expected DataSec"));
            },
        }
        if type_header.vlen() > usize::MAX / DATA_SEC_VARIABLE_SIZE {
            return Err(Error::new(ErrorKind::InvalidTypeSectionOffset, "Invalid type section offset"));
        }
        check_tail(file_header, reader.offset(), Data::size(&type_header))?;
        let data = Data::new(reader, file_header, &type_header)?;
        Ok(Self { type_header, data })
    }

    /// Returns the `name` field of the type
    pub fn name(&self) -> (name: &Option<String>)
        ensures
            *name == self.data.name,
    {
        &self.data.name
    }

    /// Returns the `size` field of the type
    pub fn size(&self) -> (size: &usize)
        ensures
            *size == self.data.size,
    {
        &self.data.size
    }

    /// Returns the `variable_list` field of the type
    pub fn variable_list(&self) -> (variable_list: &Vec<Variable>)
        ensures
            *variable_list == self.data.variable_list,
    {
        &self.data.variable_list
    }
}

} // verus!
