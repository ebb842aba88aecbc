use crate::btf::error::ErrorKind;
use crate::btf::file_header::{file_header_of, FileHeader, BTF_LITTLE_ENDIAN_MAGIC};
use crate::btf::graph::{graph_of, named_entries, Graph};
use crate::btf::header::{header_at, type_section, Header};
use crate::btf::kind::Kind;
use crate::btf::offset::Offset;
use crate::btf::offset_error::PathFailure;
use crate::btf::string::{name_at, string_at};
use crate::btf::struct_union::{member_at, member_offset};
use crate::btf::type_information::{graph_at, lemma_record_advances, record_at, types_from};
use crate::btf::type_path::{lex, path_items, PathItem, TypePathParserState};
use crate::btf::type_variant::{kind_is_named, type_at, TypeModel};
use crate::utils::reader::{u32_at, unsigned_value, Endianness};
use vstd::prelude::*;

verus! {

/// The void type has no size, in any graph.
pub proof fn lemma_void_is_not_sized(graph: Graph)
    ensures
        graph.size_of(0) == Err::<usize, ErrorKind>(ErrorKind::NotSized),
{
}

/// The empty path leads from any type, in the graph or not, to that type at
/// the byte offset 0.
pub proof fn lemma_empty_path(graph: Graph, tid: u32)
    ensures
        path_items(Seq::<u8>::empty()) == Seq::<PathItem>::empty(),
        graph.offset_of(tid, path_items(Seq::<u8>::empty())) == Ok::<(u32, Offset), PathFailure>(
            (tid, Offset::ByteOffset(0)),
        ),
{
}

/// Inside an index or a name a path yields one item at least.
proof fn lemma_token_yields(path: Seq<u8>, position: int, state: TypePathParserState, start: int)
    requires
        state is InsideIndex || state is InsideName,
    ensures
        lex(path, position, state, start).len() > 0,
    decreases path.len() - position,
{
    if position < path.len() {
        lemma_token_yields(path, position + 1, state, start);
    }
}

/// A path that is not empty yields one item at least.
pub proof fn lemma_path_yields(path: Seq<u8>)
    requires
        path.len() > 0,
    ensures
        path_items(path).len() > 0,
{
    lemma_token_yields(path, 1, TypePathParserState::InsideIndex, 1);
    lemma_token_yields(path, 1, TypePathParserState::InsideName, 0);
}

/// No path but the empty one leads anywhere from the void type.
pub proof fn lemma_void_has_no_members(graph: Graph, path: Seq<u8>)
    requires
        path.len() > 0,
    ensures
        graph.offset_of(0, path_items(path)) matches Err(failure) && failure.kind() == ErrorKind::InvalidTypePath,
{
    lemma_path_yields(path);
}

/// Whether every size that a type of the graph states is positive: the
/// size of an int, float, enum, struct, union or data section, the element
/// count of an array, and the size of a pointer.
pub open spec fn sizes_are_positive(graph: Graph) -> bool {
    &&& graph.pointer_size() matches Ok(size) ==> size > 0
    &&& forall|tid: u32| #[trigger]
        graph.types.contains_key(tid) ==> match graph.types[tid] {
            TypeModel::Int(record) => record.data.size > 0,
            TypeModel::Float(record) => record.data.size > 0,
            TypeModel::Enum(record) => record.data.size > 0,
            TypeModel::Enum64(record) => record.data.size > 0,
            TypeModel::Struct(record) => record.data.size > 0,
            TypeModel::Union(record) => record.data.size > 0,
            TypeModel::DataSec(record) => record.data.size > 0,
            TypeModel::Array(record) => record.data.element_count > 0,
            _ => true,
        }
}

/// In a graph whose stated sizes are positive the size of a type is never
/// 0; and the size of a type fails as not sized, for an id that is not in
/// the graph, or for a size that does not fit.
pub proof fn lemma_size_is_positive(graph: Graph, tid: u32, steps: nat)
    ensures
        sizes_are_positive(graph) ==> (graph.size_within(tid, steps) matches Ok(size) ==> size > 0),
        graph.size_within(tid, steps) matches Err(kind) ==> kind == ErrorKind::NotSized || kind
            == ErrorKind::InvalidTypeID || kind == ErrorKind::InvalidOffset,
    decreases steps,
{
    match graph.type_of(tid) {
        None => {},
        Some(type_model) => {
            match type_model {
                TypeModel::Array(record) => {
                    if steps > 0 {
                        lemma_size_is_positive(graph, record.data.element_tid, (steps - 1) as nat);
                        let element = graph.size_within(record.data.element_tid, (steps - 1) as nat);
                        if element is Ok && sizes_are_positive(graph) {
                            assert(graph.types.contains_key(tid));
                            let size = element->Ok_0 as int;
                            let count = record.data.element_count as int;
                            assert(size > 0 && count > 0 ==> size * count > 0) by (nonlinear_arith);
                        }
                    }
                },
                TypeModel::Var(_) | TypeModel::Typedef(_) | TypeModel::Const(_) | TypeModel::Volatile(_) | TypeModel::Restrict(
                    _,
                ) | TypeModel::TypeTag(_) => {
                    if steps > 0 {
                        lemma_size_is_positive(graph, Graph::sized_as(type_model)->0, (steps - 1) as nat);
                    }
                },
                _ => {
                    assert(tid != 0 ==> graph.types.contains_key(tid));
                },
            }
        },
    }
}

/// The byte offset of a decoded member, counted in bits, fits in 32 bits.
pub proof fn lemma_member_offset_in_bits(kind_flag: bool, raw_offset: u32)
    ensures
        member_offset(kind_flag, raw_offset) matches Ok(Offset::ByteOffset(bytes)) ==> bytes * 8 <= u32::MAX,
{
    assert(raw_offset & 0xFFFFFF <= 0xFFFFFF) by (bit_vector);
}

/// A member of a struct or union without the kind flag whose raw offset is
/// no multiple of 8 fails to decode with `InvalidOffset`, once its twelve
/// bytes and its name are read.
pub proof fn lemma_unaligned_member(
    content: Seq<u8>,
    endianness: Endianness,
    file_header: FileHeader,
    offset: int,
)
    requires
        u32_at(content, endianness, offset) matches Ok(name_offset) && name_at(
            content,
            endianness,
            file_header,
            name_offset,
        ) is Ok,
        u32_at(content, endianness, offset + 4) is Ok,
        u32_at(content, endianness, offset + 8) matches Ok(raw_offset) && raw_offset % 8 != 0,
    ensures
        member_at(content, endianness, file_header, offset, false) == Err::<
            crate::btf::struct_union::MemberModel,
            ErrorKind,
        >(ErrorKind::InvalidOffset),
{
}

/// Where the start or the end of the type section does not fit in 32 bits,
/// no type header is read, whatever the content, and no graph is built.
pub proof fn lemma_oversized_type_section(
    content: Seq<u8>,
    endianness: Endianness,
    file_header: FileHeader,
    offset: int,
)
    requires
        file_header.hdr_len + file_header.type_off + file_header.type_len > u32::MAX,
    ensures
        header_at(content, endianness, file_header, offset) == Err::<crate::btf::header::Header, ErrorKind>(
            ErrorKind::InvalidTypeSectionOffset,
        ),
        file_header_of(content, Endianness::Little) == Ok::<FileHeader, ErrorKind>(file_header) ==> graph_at(content)
            == Err::<Graph, ErrorKind>(ErrorKind::InvalidTypeSectionOffset),
{
}

/// Where the start or the end of the string section, or the start of a
/// string, does not fit in 32 bits, no string is read, whatever the content.
pub proof fn lemma_oversized_string_section(
    content: Seq<u8>,
    endianness: Endianness,
    file_header: FileHeader,
    string_offset: u32,
)
    requires
        file_header.hdr_len + file_header.str_off + file_header.str_len > u32::MAX || file_header.hdr_len
            + file_header.str_off + string_offset > u32::MAX,
    ensures
        string_at(content, endianness, file_header, string_offset) == Err::<Seq<char>, ErrorKind>(
            ErrorKind::InvalidStringOffset,
        ),
{
}

/// Bytes spell the same number in little endian as the same bytes in the
/// opposite order spell in big endian.
pub proof fn lemma_mirrored_value(bytes: Seq<u8>)
    ensures
        unsigned_value(bytes, Endianness::Little) == unsigned_value(bytes.reverse(), Endianness::Big),
{
    assert(bytes.reverse().reverse() =~= bytes);
}

/// Whether the type with the id `tid` of a list of types, which is the one
/// at the index `tid - 1`, has the name `name`.
pub open spec fn named_at(types: Seq<TypeModel>, tid: u32, name: Seq<char>) -> bool {
    1 <= tid <= types.len() && types[tid - 1].name() == Some(name)
}

/// The index from ids to names of the graph of a list of types has the ids
/// of the types that have a name, each with the name of its type.
pub proof fn lemma_names_index(types: Seq<TypeModel>, tid: u32)
    requires
        types.len() <= u32::MAX,
    ensures
        graph_of(types).names.contains_key(tid) <==> 1 <= tid <= types.len() && types[tid - 1].name() is Some,
        graph_of(types).names.contains_key(tid) ==> named_at(types, tid, graph_of(types).names[tid]),
    decreases types.len(),
{
    if types.len() > 0 {
        let front = types.drop_last();
        lemma_names_index(front, tid);
        match types.last().name() {
            Some(name) => {
                let entries = named_entries(front);
                assert(entries.push((name, types.len() as u32)).drop_last() =~= entries);
            },
            None => {},
        }
    }
}

/// The index from names to ids of the graph of a list of types has the
/// names of the types that have one, each with the greatest id of a type of
/// that name: of types that share a name, the last one wins.
pub proof fn lemma_ids_index(types: Seq<TypeModel>, name: Seq<char>)
    requires
        types.len() <= u32::MAX,
    ensures
        graph_of(types).ids.contains_key(name) <==> exists|tid: u32| named_at(types, tid, name),
        graph_of(types).ids.contains_key(name) ==> named_at(types, graph_of(types).ids[name], name),
        forall|tid: u32| named_at(types, tid, name) ==> tid <= graph_of(types).ids[name],
    decreases types.len(),
{
    if types.len() > 0 {
        let front = types.drop_last();
        lemma_ids_index(front, name);
        let last_tid = types.len() as u32;
        assert forall|tid: u32| named_at(front, tid, name) implies named_at(types, tid, name) by {}
        assert forall|tid: u32| named_at(types, tid, name) && tid != last_tid implies named_at(front, tid, name) by {}
        match types.last().name() {
            Some(last_name) => {
                let entries = named_entries(front);
                assert(entries.push((last_name, last_tid)).drop_last() =~= entries);
                if last_name == name {
                    assert(named_at(types, last_tid, name));
                } else {
                    if graph_of(front).ids.contains_key(name) {
                        let tid = choose|tid: u32| named_at(front, tid, name);
                        assert(named_at(types, tid, name));
                    }
                }
            },
            None => {
                if graph_of(front).ids.contains_key(name) {
                    let tid = choose|tid: u32| named_at(front, tid, name);
                    assert(named_at(types, tid, name));
                }
            },
        }
    }
}

/// A name that one type alone goes by leads back to that type: the id of
/// the name of a type is the id of the type.
pub proof fn lemma_unique_name_round_trip(types: Seq<TypeModel>, tid: u32, name: Seq<char>)
    requires
        types.len() <= u32::MAX,
        graph_of(types).name_of(tid) == Some(name),
        forall|other: u32| graph_of(types).name_of(other) == Some(name) ==> other == tid,
    ensures
        graph_of(types).id_of(name) == Some(tid),
{
    let graph = graph_of(types);
    if tid != 0 {
        assert(graph.name_of(0) == Some("void"@));
        lemma_names_index(types, tid);
        lemma_ids_index(types, name);
        assert(named_at(types, tid, name));
        let found = graph.ids[name];
        lemma_names_index(types, found);
        assert(graph.name_of(found) == Some(name));
    }
}

/// A decoded type has the header that stood before it, of the kind it was
/// decoded by, and has a name where its kind is named and the name offset
/// in its header is not 0, and only there.
pub proof fn lemma_decoded_type_name(
    content: Seq<u8>,
    endianness: Endianness,
    file_header: FileHeader,
    offset: int,
    kind: Kind,
    type_header: Header,
)
    ensures
        type_at(content, endianness, file_header, offset, kind, type_header) matches Ok(type_model) ==> {
            &&& type_model.header() == Some(type_header)
            &&& type_header.kind == kind
            &&& type_model.name() is Some <==> kind_is_named(kind) && type_header.name_offset != 0
        },
{
    match kind {
        Kind::Int => {},
        Kind::Ptr => {},
        Kind::Array => {},
        Kind::Struct => {},
        Kind::Union => {},
        Kind::Enum => {},
        Kind::Fwd => {},
        Kind::Typedef => {},
        Kind::Volatile => {},
        Kind::Const => {},
        Kind::Restrict => {},
        Kind::Func => {},
        Kind::FuncProto => {},
        Kind::Var => {},
        Kind::DataSec => {},
        Kind::Float => {},
        Kind::DeclTag => {},
        Kind::TypeTag => {},
        Kind::Enum64 => {},
    }
}

/// Whether a type has a name where its kind is named and the name offset in
/// its header is not 0, and only there.
pub open spec fn named_by_header(type_model: TypeModel) -> bool {
    type_model.header() matches Some(type_header) && (type_model.name() is Some <==> kind_is_named(
        type_header.kind,
    ) && type_header.name_offset != 0)
}

/// The types of a type section are named by their headers, and each takes
/// up twelve bytes at least.
pub proof fn lemma_decoded_types(
    content: Seq<u8>,
    endianness: Endianness,
    file_header: FileHeader,
    offset: int,
    end: int,
)
    ensures
        types_from(content, endianness, file_header, offset, end) matches Ok(types) ==> {
            &&& forall|i: int| 0 <= i < types.len() ==> named_by_header(#[trigger] types[i])
            &&& offset < end ==> types.len() * 12 <= end - offset + 11
            &&& offset >= end ==> types.len() == 0
        },
    decreases
            if offset < end {
                end - offset
            } else {
                0
            },
{
    if offset < end {
        lemma_record_advances(content, endianness, file_header, offset);
        let record = record_at(content, endianness, file_header, offset);
        if record is Ok {
            let (type_model, next) = record->Ok_0;
            assert(named_by_header(type_model)) by {
                reveal(record_at);
                let type_header = header_at(content, endianness, file_header, offset)->Ok_0;
                lemma_decoded_type_name(
                    content,
                    endianness,
                    file_header,
                    offset + 12,
                    type_header.kind,
                    type_header,
                );
            }
            lemma_decoded_types(content, endianness, file_header, next, end);
        }
    }
}

/// In a graph that was built from a source, a type has a name exactly
/// where its kind is one of the named kinds and the name offset in its
/// header is not 0.
pub proof fn lemma_built_names(content: Seq<u8>, tid: u32)
    requires
        graph_at(content) matches Ok(graph) && graph.types.contains_key(tid),
    ensures
        graph_at(content) matches Ok(graph) && graph.types[tid].header() matches Some(type_header) && (graph.name_of(
            tid,
        ) is Some <==> kind_is_named(type_header.kind) && type_header.name_offset != 0),
{
    let file_header = file_header_of(content, Endianness::Little)->Ok_0;
    let endianness = crate::btf::file_header::endianness_of(content, Endianness::Little)->Ok_0;
    let section = type_section(file_header)->Ok_0;
    let types = types_from(content, endianness, file_header, section.0 as int, section.1 as int)->Ok_0;
    lemma_decoded_types(content, endianness, file_header, section.0 as int, section.1 as int);
    lemma_names_index(types, tid);
}

/// In a graph that was built from a source, a name that one type alone
/// goes by leads back to that type.
pub proof fn lemma_built_round_trip(content: Seq<u8>, tid: u32, name: Seq<char>)
    requires
        graph_at(content) matches Ok(graph) && graph.name_of(tid) == Some(name) && forall|other: u32|
            graph.name_of(other) == Some(name) ==> other == tid,
    ensures
        graph_at(content) matches Ok(graph) && graph.id_of(name) == Some(tid),
{
    let file_header = file_header_of(content, Endianness::Little)->Ok_0;
    let endianness = crate::btf::file_header::endianness_of(content, Endianness::Little)->Ok_0;
    let section = type_section(file_header)->Ok_0;
    let types = types_from(content, endianness, file_header, section.0 as int, section.1 as int)->Ok_0;
    lemma_decoded_types(content, endianness, file_header, section.0 as int, section.1 as int);
    lemma_unique_name_round_trip(types, tid, name);
}

/// The same header, once with every number in little endian and once with
/// every number in big endian, decodes to the same fields.
pub proof fn lemma_mirrored_header(little: Seq<u8>, big: Seq<u8>)
    requires
        little.len() >= 24,
        big.len() >= 24,
        crate::utils::reader::u16_at(little, Endianness::Little, 0) == Ok::<u16, ErrorKind>(BTF_LITTLE_ENDIAN_MAGIC),
        big.subrange(0, 2) == little.subrange(0, 2).reverse(),
        big[2] == little[2],
        big[3] == little[3],
        big.subrange(4, 8) == little.subrange(4, 8).reverse(),
        big.subrange(8, 12) == little.subrange(8, 12).reverse(),
        big.subrange(12, 16) == little.subrange(12, 16).reverse(),
        big.subrange(16, 20) == little.subrange(16, 20).reverse(),
        big.subrange(20, 24) == little.subrange(20, 24).reverse(),
    ensures
        file_header_of(little, Endianness::Little) is Ok,
        file_header_of(big, Endianness::Little) == file_header_of(little, Endianness::Little),
        crate::btf::file_header::endianness_of(little, Endianness::Little) == Ok::<Endianness, ErrorKind>(
            Endianness::Little,
        ),
        crate::btf::file_header::endianness_of(big, Endianness::Little) == Ok::<Endianness, ErrorKind>(
            Endianness::Big,
        ),
{
    let magic = little.subrange(0, 2);
    crate::utils::reader::lemma_le_value_2(magic);
    crate::utils::reader::lemma_le_value_2(magic.reverse());
    assert(little.subrange(2, 3).reverse() =~= big.subrange(2, 3));
    assert(little.subrange(3, 4).reverse() =~= big.subrange(3, 4));
    crate::utils::reader::lemma_le_value_1(little.subrange(2, 3));
    crate::utils::reader::lemma_le_value_1(little.subrange(3, 4));
    crate::utils::reader::lemma_le_value_1(big.subrange(2, 3));
    crate::utils::reader::lemma_le_value_1(big.subrange(3, 4));
    crate::utils::reader::lemma_le_value_1(big.subrange(2, 3).reverse());
    crate::utils::reader::lemma_le_value_1(big.subrange(3, 4).reverse());
    lemma_mirrored_value(little.subrange(4, 8));
    lemma_mirrored_value(little.subrange(8, 12));
    lemma_mirrored_value(little.subrange(12, 16));
    lemma_mirrored_value(little.subrange(16, 20));
    lemma_mirrored_value(little.subrange(20, 24));
}

} // verus!
