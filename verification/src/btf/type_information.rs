use crate::btf::error::{agrees, and_then, Error, ErrorKind};
use crate::btf::file_header::{endianness_of, file_header_of, FileHeader};
use crate::btf::graph::{
    entries, find_member, graph_of, index_by_id, index_by_name, models, named_entries, texts, Graph, Probe,
};
use crate::btf::header::{header_at, type_section, type_section_bounds, Header, TYPE_HEADER_SIZE};
use crate::btf::model::view_agrees;
use crate::btf::offset::Offset;
use crate::btf::offset_error::{OffsetError, PathFailure};
use crate::btf::readable::Readable;
use crate::btf::struct_union::Member;
use crate::btf::type_path::{path_items, PathItem, TypePathComponent, TypePathComponentIter};
use crate::btf::type_variant::{get_type_enum_value_name, parse_type, tail_size, type_at, TypeModel, TypeVariant};
use crate::utils::reader::{Endianness, Reader};
use crate::utils::text::str_eq;
use core::ops::Add;
use std::collections::BTreeMap;
use vstd::hash_map::StringHashMap;
use vstd::prelude::*;
use vstd::string::StringSliceAdditionalSpecFns;

verus! {

broadcast use {vstd::std_specs::btree::group_btree_axioms, vstd::laws_cmp::group_laws_cmp};

/// Type information acquired from the BTF data
pub struct TypeInformation {
    /// Maps a type id to the type object
    id_to_type_map: BTreeMap<u32, TypeVariant>,
    /// Maps a type name to a type id
    name_to_id_map: StringHashMap<u32>,
    /// Maps a type id to a type name
    id_to_name_map: BTreeMap<u32, String>,
}

impl View for TypeInformation {
    type V = Graph;

    closed spec fn view(&self) -> Graph {
        Graph {
            types: models(self.id_to_type_map@),
            ids: self.name_to_id_map@,
            names: texts(self.id_to_name_map@),
        }
    }
}

/// The type that starts at `offset` of `content`, a header and the tail of
/// its kind, together with the offset behind it.
#[verifier::opaque]
pub open spec fn record_at(
    content: Seq<u8>,
    endianness: Endianness,
    file_header: FileHeader,
    offset: int,
) -> Result<(TypeModel, int), ErrorKind> {
    and_then(header_at(content, endianness, file_header, offset), |type_header: Header|
        and_then(
            type_at(
                content,
                endianness,
                file_header,
                offset + TYPE_HEADER_SIZE,
                type_header.kind,
                type_header,
            ),
            |type_model: TypeModel|
                Ok((type_model, offset + TYPE_HEADER_SIZE + tail_size(type_header.kind, type_header))),
        ))
}

/// A type takes up twelve bytes at least.
pub proof fn lemma_record_advances(
    content: Seq<u8>,
    endianness: Endianness,
    file_header: FileHeader,
    offset: int,
)
    ensures
        record_at(content, endianness, file_header, offset) is Ok ==> record_at(
            content,
            endianness,
            file_header,
            offset,
        )->Ok_0.1 >= offset + 12,
{
    reveal(record_at);
}

/// The types that lie one behind the other in `content` from `offset` up to
/// `end`.
pub open spec fn types_from(
    content: Seq<u8>,
    endianness: Endianness,
    file_header: FileHeader,
    offset: int,
    end: int,
) -> Result<Seq<TypeModel>, ErrorKind>
    decreases
            if offset < end {
                end - offset
            } else {
                0
            },
    via types_from_terminates
{
    if offset >= end {
        Ok(Seq::empty())
    } else {
        match record_at(content, endianness, file_header, offset) {
            Err(kind) => Err(kind),
            Ok((type_model, next)) => match types_from(content, endianness, file_header, next, end) {
                Err(kind) => Err(kind),
                Ok(rest) => Ok(seq![type_model] + rest),
            },
        }
    }
}

#[via_fn]
proof fn types_from_terminates(
    content: Seq<u8>,
    endianness: Endianness,
    file_header: FileHeader,
    offset: int,
    end: int,
) {
    lemma_record_advances(content, endianness, file_header, offset);
}

/// The type graph that `content` holds: the types of its type section, with
/// ids from 1 on in their order.
pub open spec fn graph_at(content: Seq<u8>) -> Result<Graph, ErrorKind> {
    and_then(file_header_of(content, Endianness::Little), |file_header: FileHeader|
        and_then(type_section(file_header), |section: (u32, u32)|
            and_then(
                types_from(
                    content,
                    endianness_of(content, Endianness::Little)->Ok_0,
                    file_header,
                    section.0 as int,
                    section.1 as int,
                ),
                |types: Seq<TypeModel>| Ok(graph_of(types)),
            )))
}

impl TypeInformation {
    /// Creates a new `TypeInformation` object
    pub fn new<R: Readable>(readable: &R) -> (r: Result<Self, Error>)
        ensures
            view_agrees(r, graph_at(readable.content()), readable.reliable()),
    {
        let mut reader = Reader::new(readable);
        let file_header = FileHeader::new(&mut reader)?;
        let (type_section_start, type_section_end) = type_section_bounds(&file_header)?;
        reader.set_offset(type_section_start as usize);

        let mut tid_generator: u32 = 1;
        let mut id_to_type_map = BTreeMap::<u32, TypeVariant>::new();
        let mut name_to_id_map = StringHashMap::<u32>::new();
        let mut id_to_name_map = BTreeMap::<u32, String>::new();

        let ghost content = readable.content();
        let ghost endianness = reader.endianness;
        let ghost whole = types_from(
            content,
            endianness,
            file_header,
            type_section_start as int,
            type_section_end as int,
        );
        let ghost mut decoded = Seq::<TypeModel>::empty();
        proof {
            assert(models(id_to_type_map@) =~= graph_of(decoded).types);
            assert(texts(id_to_name_map@) =~= graph_of(decoded).names);
            assert(name_to_id_map@ =~= graph_of(decoded).ids);
            if whole is Ok {
                assert(decoded + whole->Ok_0 =~= whole->Ok_0);
            }
        }
        while reader.offset() < type_section_end as usize
            invariant
                reader.content() == content,
                reader.reliable() == readable.reliable(),
                reader.endianness == endianness,
                content == readable.content(),
                graph_at(content) == match whole {
                    Ok(types) => Ok::<Graph, ErrorKind>(graph_of(types)),
                    Err(kind) => Err(kind),
                },
                whole == types_from(
                    content,
                    endianness,
                    file_header,
                    type_section_start as int,
                    type_section_end as int,
                ),
                whole == match types_from(
                    content,
                    endianness,
                    file_header,
                    reader.offset as int,
                    type_section_end as int,
                ) {
                    Ok(rest) => Ok::<Seq<TypeModel>, ErrorKind>(decoded + rest),
                    Err(kind) => Err(kind),
                },
                type_section_start <= reader.offset,
                decoded.len() * 12 <= reader.offset - type_section_start,
                tid_generator == decoded.len() + 1,
                models(id_to_type_map@) == graph_of(decoded).types,
                name_to_id_map@ == graph_of(decoded).ids,
                texts(id_to_name_map@) == graph_of(decoded).names,
            decreases
                    if reader.offset < type_section_end {
                        type_section_end - reader.offset
                    } else {
                        0
                    },
        {
            proof {
                lemma_record_advances(content, endianness, file_header, reader.offset as int);
            }
            let btf_type = Self::read_type(&mut reader, &file_header)?;
            let tid = tid_generator;
            tid_generator += 1;
            proof {
                let rest = types_from(
                    content,
                    endianness,
                    file_header,
                    reader.offset as int,
                    type_section_end as int,
                );
                if rest is Ok {
                    assert(decoded + (seq![btf_type@] + rest->Ok_0) =~= decoded.push(btf_type@) + rest->Ok_0);
                }
            }
            Self::enter(
                &mut id_to_type_map,
                &mut name_to_id_map,
                &mut id_to_name_map,
                Ghost(decoded),
                tid,
                btf_type,
            );
            proof {
                decoded = decoded.push(btf_type@);
            }
        }
        proof {
            assert(decoded + Seq::<TypeModel>::empty() =~= decoded);
        }
        Ok(Self { id_to_type_map, name_to_id_map, id_to_name_map })
    }

    /// Reads the type at the offset of the reader
    fn read_type<R: Readable>(
        reader: &mut Reader<R>,
        file_header: &FileHeader,
    ) -> (r: Result<TypeVariant, Error>)
        ensures
            final(reader).same_source(old(reader)),
            match r {
                Ok(type_variant) => record_at(
                    old(reader).content(),
                    old(reader).endianness,
                    *file_header,
                    old(reader).offset as int,
                ) == Ok::<(TypeModel, int), ErrorKind>((type_variant@, final(reader).offset as int)),
                Err(e) => record_at(
                    old(reader).content(),
                    old(reader).endianness,
                    *file_header,
                    old(reader).offset as int,
                ) == Err::<(TypeModel, int), ErrorKind>(e.kind) || (!old(reader).reliable() && e.kind
                    == ErrorKind::IOError),
            },
    {
        reveal(record_at);
        let type_header = Header::new(reader, file_header)?;
        parse_type(type_header.kind(), reader, file_header, type_header)
    }

    /// Enters a type under the next id into the map of the types, and its
    /// name, where it has one, into the two indices
    fn enter(
        id_to_type_map: &mut BTreeMap<u32, TypeVariant>,
        name_to_id_map: &mut StringHashMap<u32>,
        id_to_name_map: &mut BTreeMap<u32, String>,
        Ghost(decoded): Ghost<Seq<TypeModel>>,
        tid: u32,
        btf_type: TypeVariant,
    )
        requires
            tid == decoded.len() + 1,
            models(old(id_to_type_map)@) == graph_of(decoded).types,
            old(name_to_id_map)@ == graph_of(decoded).ids,
            texts(old(id_to_name_map)@) == graph_of(decoded).names,
        ensures
            models(final(id_to_type_map)@) == graph_of(decoded.push(btf_type@)).types,
            final(name_to_id_map)@ == graph_of(decoded.push(btf_type@)).ids,
            texts(final(id_to_name_map)@) == graph_of(decoded.push(btf_type@)).names,
    {
        proof {
            let longer = decoded.push(btf_type@);
            assert(longer.drop_last() =~= decoded);
            assert(models(id_to_type_map@.insert(tid, btf_type)) =~= models(id_to_type_map@).insert(tid, btf_type@));
            assert(graph_of(longer).types =~= graph_of(decoded).types.insert(tid, btf_type@));
        }
        match get_type_enum_value_name(&btf_type) {
            Some(name) => {
                proof {
                    let named = named_entries(decoded);
                    assert(named.push((name@, tid)).drop_last() =~= named);
                    assert(named_entries(decoded.push(btf_type@)) == named.push((name@, tid)));
                    assert(texts(id_to_name_map@.insert(tid, name)) =~= texts(id_to_name_map@).insert(tid, name@));
                }
                name_to_id_map.insert(name.clone(), tid);
                id_to_name_map.insert(tid, name);
            },
            None => {},
        }
        id_to_type_map.insert(tid, btf_type);
    }

    /// Splits the given type path into its components
    pub fn split_path_components(path: &str) -> (r: Result<Vec<TypePathComponent<'_>>, Error>)
        ensures
            match r {
                Ok(components) => crate::btf::model::views(components@) == path_items(path.spec_bytes()),
                Err(e) => {
                    &&& e.kind == ErrorKind::InvalidTypePath
                    &&& path_items(path.spec_bytes()).len() > 0
                    &&& path_items(path.spec_bytes()).last() is Invalid
                },
            },
    {
        let mut path_iter = TypePathComponentIter::new(path);
        let mut components: Vec<TypePathComponent<'_>> = Vec::new();
        proof {
            assert(crate::btf::model::views(components@) + path_iter.remaining() =~= path_iter.remaining());
        }
        loop
            invariant
                path_items(path.spec_bytes()) == crate::btf::model::views(components@) + path_iter.remaining(),
            decreases path_iter.remaining().len(),
        {
            match path_iter.next() {
                None => {
                    proof {
                        assert(crate::btf::model::views(components@) + Seq::<PathItem>::empty()
                            =~= crate::btf::model::views(components@));
                    }
                    return Ok(components);
                },
                Some(Ok(component)) => {
                    proof {
                        crate::btf::model::lemma_views_push(components@, component);
                        assert(crate::btf::model::views(components@) + (seq![component@] + path_iter.remaining())
                            =~= crate::btf::model::views(components@).push(component@) + path_iter.remaining());
                    }
                    components.push(component);
                },
                Some(Err(e)) => {
                    proof {
                        assert((crate::btf::model::views(components@) + seq![PathItem::Invalid]).last()
                            is Invalid);
                    }
                    return Err(e);
                },
            }
        }
    }

    /// Creates a new `TypeInformation` object from the given types, and
    /// from the names that are entered into its two indices one after the
    /// other
    pub fn create(
        id_to_type_map: BTreeMap<u32, TypeVariant>,
        names: Vec<(String, u32)>,
    ) -> (r: Self)
        ensures
            r@.types == models(id_to_type_map@),
            r@.ids == index_by_name(entries(names@)),
            r@.names == index_by_id(entries(names@)),
    {
        let mut name_to_id_map = StringHashMap::<u32>::new();
        let mut id_to_name_map = BTreeMap::<u32, String>::new();
        let mut i: usize = 0;
        proof {
            assert(texts(id_to_name_map@) =~= Map::<u32, Seq<char>>::empty());
            assert(entries(names@).subrange(0, 0) =~= Seq::empty());
        }
        while i < names.len()
            invariant
                i <= names.len(),
                name_to_id_map@ == index_by_name(entries(names@).subrange(0, i as int)),
                texts(id_to_name_map@) == index_by_id(entries(names@).subrange(0, i as int)),
            decreases names.len() - i,
        {
            let name = names[i].0.clone();
            let tid = names[i].1;
            proof {
                let longer = entries(names@).subrange(0, i + 1);
                assert(longer.drop_last() =~= entries(names@).subrange(0, i as int));
                assert(longer.last() == (name@, tid));
                assert(texts(id_to_name_map@.insert(tid, name)) =~= texts(id_to_name_map@).insert(tid, name@));
            }
            name_to_id_map.insert(name.clone(), tid);
            id_to_name_map.insert(tid, name);
            i += 1;
        }
        proof {
            assert(entries(names@).subrange(0, names@.len() as int) =~= entries(names@));
        }
        Self { id_to_type_map, name_to_id_map, id_to_name_map }
    }

    /// A `TypeInformation` holds finitely many types, so that no query
    /// depends on the bound on the references that it follows.
    pub proof fn lemma_finite(&self)
        ensures
            self@.types.dom().finite(),
    {
        assert(models(self.id_to_type_map@).dom() =~= self.id_to_type_map@.dom());
    }

    /// Returns the entire type map
    pub fn get(&self) -> (types: &BTreeMap<u32, TypeVariant>)
        ensures
            models(types@) == self@.types,
    {
        &self.id_to_type_map
    }

    /// Returns the type id for the given type name
    pub fn id_of(&self, name: &str) -> (tid: Option<u32>)
        ensures
            tid == self@.id_of(name@),
    {
        if crate::utils::text::str_eq(name, "void") {
            return Some(0);
        }
        match self.name_to_id_map.get(name) {
            Some(tid) => Some(*tid),
            None => None,
        }
    }

    /// Returns the type object for the given type id
    pub fn from_id(&self, tid: u32) -> (type_variant: Option<TypeVariant>)
        ensures
            match type_variant {
                Some(found) => self@.type_of(tid) == Some(found@),
                None => self@.type_of(tid) is None,
            },
    {
        if tid == 0 {
            return Some(TypeVariant::Void);
        }
        match self.id_to_type_map.get(&tid) {
            Some(found) => Some(found.clone()),
            None => None,
        }
    }

    /// Returns the name of the given type id
    pub fn name_of(&self, tid: u32) -> (name: Option<String>)
        ensures
            crate::btf::model::name_view(name) == self@.name_of(tid),
    {
        if tid == 0 {
            return Some("void".to_string());
        }
        match self.id_to_name_map.get(&tid) {
            Some(name) => Some(name.clone()),
            None => None,
        }
    }

    /// The type with the given id that is not 0, where the graph has it
    fn lookup(&self, tid: u32) -> (found: Option<&TypeVariant>)
        requires
            tid != 0,
        ensures
            match found {
                Some(type_variant) => self@.type_of(tid) == Some(type_variant@),
                None => self@.type_of(tid) is None,
            },
    {
        self.id_to_type_map.get(&tid)
    }

    /// The number of references that a query follows at most
    fn bound(&self) -> (bound: usize)
        ensures
            bound == self@.bound(),
    {
        proof {
            assert(models(self.id_to_type_map@).dom() =~= self.id_to_type_map@.dom());
        }
        self.id_to_type_map.len()
    }

    /// The failure for an id that is not in the graph
    fn invalid_type_id() -> (e: Error)
        ensures
            e.kind == ErrorKind::InvalidTypeID,
    {
        Error::new(ErrorKind::InvalidTypeID, "Invalid type id")
    }

    /// The failure for a chain of references that is longer than any that
    /// does not run in a circle
    fn endless_reference() -> (e: Error)
        ensures
            e.kind == ErrorKind::InvalidTypeID,
    {
        Error::new(ErrorKind::InvalidTypeID, "The type refers to itself")
    }

    /// Returns the pointee type id
    ///
    /// References that run in a circle end in `InvalidTypeID`.
    pub fn pointee_tid(&self, tid: u32) -> (r: Result<u32, Error>)
        ensures
            agrees(r, self@.pointee_of(tid), true),
    {
        let mut steps = self.bound();
        let mut current = tid;
        loop
            invariant
                self@.pointee_of(tid) == self@.pointee_within(current, steps as nat),
            decreases steps,
        {
            if current == 0 {
                return Err(Error::new(ErrorKind::InvalidTypeID, "Type is not a pointer"));
            }
            let next = match self.lookup(current) {
                None => {
                    return Err(Self::invalid_type_id());
                },
                Some(type_variant) => match type_variant {
                    TypeVariant::Typedef(typedef) => *typedef.tid(),
                    TypeVariant::Const(cnst) => *cnst.tid(),
                    TypeVariant::Volatile(volatile) => *volatile.tid(),
                    TypeVariant::Restrict(restrict) => *restrict.tid(),
                    TypeVariant::Ptr(ptr) => {
                        return Ok(*ptr.tid());
                    },
                    _ => {
                        return Err(Error::new(ErrorKind::InvalidTypeID, "Type is not a pointer"));
                    },
                },
            };
            if steps == 0 {
                return Err(Self::endless_reference());
            }
            steps -= 1;
            current = next;
        }
    }

    /// The size of a pointer: half the size of the struct `list_head`
    fn pointer_size(&self) -> (r: Result<usize, Error>)
        ensures
            agrees(r, self@.pointer_size(), true),
    {
        let list_head_tid = match self.id_of("list_head") {
            Some(tid) => tid,
            None => {
                return Err(
                    Error::new(
                        ErrorKind::InvalidTypeID,
                        "The `struct list_head` type, used to extract the pointer size, was not found",
                    ),
                );
            },
        };
        if list_head_tid == 0 {
            return Err(
                Error::new(
                    ErrorKind::InvalidTypeID,
                    "The extracted `struct list_head` type ID, used to extract the pointer size, is not a struct type",
                ),
            );
        }
        match self.lookup(list_head_tid) {
            None => Err(
                Error::new(
                    ErrorKind::InvalidTypeID,
                    "The extracted `struct list_head` type ID, used to extract the pointer size, was invalid",
                ),
            ),
            Some(TypeVariant::Struct(list_head)) => Ok(*list_head.size() / 2),
            Some(_) => Err(
                Error::new(
                    ErrorKind::InvalidTypeID,
                    "The extracted `struct list_head` type ID, used to extract the pointer size, is not a struct type",
                ),
            ),
        }
    }

    /// The size of the given type id, when at most `steps` references are followed
    fn size_within(&self, tid: u32, steps: usize) -> (r: Result<usize, Error>)
        ensures
            agrees(r, self@.size_within(tid, steps as nat), true),
        decreases steps,
    {
        if tid == 0 {
            return Err(Error::new(ErrorKind::NotSized, "The void type has no size"));
        }
        let type_variant = match self.lookup(tid) {
            Some(type_variant) => type_variant,
            None => {
                return Err(Self::invalid_type_id());
            },
        };
        let next = match type_variant {
            TypeVariant::Ptr(_) => {
                return self.pointer_size();
            },
            TypeVariant::Array(array) => {
                if steps == 0 {
                    return Err(Self::endless_reference());
                }
                let element_size = self.size_within(*array.element_tid(), steps - 1)?;
                let element_count = *array.element_count() as usize;
                return match element_size.checked_mul(element_count) {
                    Some(size) => Ok(size),
                    None => Err(Error::new(ErrorKind::InvalidOffset, "Array size multiplication overflow")),
                };
            },
            TypeVariant::Float(float) => {
                return Ok(*float.size());
            },
            TypeVariant::Int(integer) => {
                return Ok(*integer.size());
            },
            TypeVariant::Enum(enm) => {
                return Ok(*enm.size());
            },
            TypeVariant::Enum64(enm) => {
                return Ok(*enm.size());
            },
            TypeVariant::Struct(str) => {
                return Ok(*str.size());
            },
            TypeVariant::Union(union) => {
                return Ok(*union.size());
            },
            TypeVariant::DataSec(data_sec) => {
                return Ok(*data_sec.size());
            },
            TypeVariant::Var(var) => *var.tid(),
            TypeVariant::Typedef(typedef) => *typedef.tid(),
            TypeVariant::Const(cnst) => *cnst.tid(),
            TypeVariant::Volatile(volatile) => *volatile.tid(),
            TypeVariant::Restrict(restrict) => *restrict.tid(),
            TypeVariant::TypeTag(type_tag) => *type_tag.tid(),
            _ => {
                return Err(Error::new(ErrorKind::NotSized, "The type has no size"));
            },
        };
        if steps == 0 {
            return Err(Self::endless_reference());
        }
        self.size_within(next, steps - 1)
    }

    /// Returns the size of the given type id
    ///
    /// References that run in a circle end in `InvalidTypeID`.
    pub fn size_of(&self, tid: u32) -> (r: Result<usize, Error>)
        ensures
            agrees(r, self@.size_of(tid), true),
    {
        self.size_within(tid, self.bound())
    }

    /// The id and the type that a path steps into at the given type id; no
    /// type stands for the void type
    fn resolve(&self, tid: u32) -> (r: Result<(u32, Option<&TypeVariant>), OffsetError<'static>>)
        ensures
            match r {
                Ok((resolved, Some(type_variant))) => self@.resolve(tid) == Ok::<(u32, TypeModel), ErrorKind>(
                    (resolved, type_variant@),
                ),
                Ok((resolved, None)) => self@.resolve(tid) == Ok::<(u32, TypeModel), ErrorKind>(
                    (resolved, TypeModel::Void),
                ),
                Err(e) => self@.resolve(tid) == Err::<(u32, TypeModel), ErrorKind>(ErrorKind::InvalidTypeID) && e
                    is InvalidTypeId,
            },
    {
        let mut steps = self.bound();
        let mut current = tid;
        loop
            invariant
                self@.resolve(tid) == self@.resolve_within(current, steps as nat),
            decreases steps,
        {
            if current == 0 {
                return Ok((current, None));
            }
            let type_variant = match self.lookup(current) {
                Some(type_variant) => type_variant,
                None => {
                    return Err(OffsetError::InvalidTypeId);
                },
            };
            let next = match type_variant {
                TypeVariant::Fwd(fwd) => *fwd.tid(),
                TypeVariant::Typedef(typedef) => *typedef.tid(),
                TypeVariant::Const(cnst) => *cnst.tid(),
                TypeVariant::Volatile(volatile) => *volatile.tid(),
                TypeVariant::Restrict(restrict) => *restrict.tid(),
                _ => {
                    return Ok((current, Some(type_variant)));
                },
            };
            if steps == 0 {
                return Err(OffsetError::InvalidTypeId);
            }
            steps -= 1;
            current = next;
        }
    }

    /// Returns a tuple containing the type id and the offset that the path
    /// leads to from the given type id
    ///
    /// References that run in a circle end in `InvalidTypeID`, and
    /// anonymous members are entered no deeper than the graph has types.
    pub fn offset_of(&self, tid: u32, path: &str) -> (r: Result<(u32, Offset), Error>)
        ensures
            match r {
                Ok(found) => self@.offset_of(tid, path_items(path.spec_bytes())) == Ok::<(u32, Offset), PathFailure>(
                    found,
                ),
                Err(e) => self@.offset_of(tid, path_items(path.spec_bytes())) matches Err(failure) && failure.told_by(
                    e,
                ),
            },
    {
        let mut path_iter = TypePathComponentIter::new(path);
        match self.offset_of_impl(Offset::ByteOffset(0), tid, &mut path_iter, self.bound()) {
            Ok(found) => Ok(found),
            Err(e) => Err(Error::from(e)),
        }
    }

    /// Returns the offset of the given type path inside the type of the given name
    pub fn offset_of_in_named_type(
        &self,
        name: &str,
        path: &str,
    ) -> (r: Result<(u32, Offset), Error>)
        ensures
            match self@.id_of(name@) {
                Some(tid) => match r {
                    Ok(found) => self@.offset_of(tid, path_items(path.spec_bytes())) == Ok::<
                        (u32, Offset),
                        PathFailure,
                    >(found),
                    Err(e) => self@.offset_of(tid, path_items(path.spec_bytes())) matches Err(failure)
                        && failure.told_by(e),
                },
                None => r matches Err(e) && e.kind == ErrorKind::InvalidTypeID,
            },
    {
        let tid = match self.id_of(name) {
            Some(tid) => tid,
            None => {
                return Err(Error::new(ErrorKind::InvalidTypeID, "The specified type id was not found"));
            },
        };
        self.offset_of(tid, path)
    }

    /// Where the element `index` of the array lies that lies at `offset`
    fn element_at(
        &self,
        offset: Offset,
        element_tid: u32,
        element_count: u32,
        index: usize,
    ) -> (r: Result<
        (u32, Offset),
        OffsetError<'static>,
    >)
        ensures
            match r {
                Ok(found) => self@.element_at(offset, element_tid, element_count, index) == Ok::<
                    (u32, Offset),
                    PathFailure,
                >(found),
                Err(e) => self@.element_at(offset, element_tid, element_count, index) == Err::<
                    (u32, Offset),
                    PathFailure,
                >(e@),
            },
    {
        if index >= element_count as usize {
            return Err(OffsetError::IndexOutOfBounds { index, array_size: element_count });
        }
        let element_size = match self.size_of(element_tid) {
            Ok(size) => size,
            Err(e) => {
                return Err(OffsetError::Btf(e));
            },
        };
        let index_size = match index.checked_mul(element_size) {
            Some(product) => {
                if product > u32::MAX as usize {
                    return Err(OffsetError::ArrayOffsetOverflow);
                }
                product as u32
            },
            None => {
                return Err(OffsetError::ArrayOffsetOverflow);
            },
        };
        match offset.add(index_size) {
            Ok(element_offset) => Ok((element_tid, element_offset)),
            Err(e) => Err(OffsetError::Btf(e)),
        }
    }

    /// The first member of the given name
    fn named_member<'b>(member_list: &'b Vec<Member>, name: &str) -> (found: Option<&'b Member>)
        ensures
            match found {
                Some(member) => find_member(
                    crate::btf::model::views(member_list@),
                    name@,
                    0,
                ) == Some(member@),
                None => find_member(crate::btf::model::views(member_list@), name@, 0) is None,
            },
    {
        let mut i: usize = 0;
        while i < member_list.len()
            invariant
                i <= member_list.len(),
                find_member(crate::btf::model::views(member_list@), name@, 0) == find_member(
                    crate::btf::model::views(member_list@),
                    name@,
                    i as int,
                ),
            decreases member_list.len() - i,
        {
            let member = &member_list[i];
            let matches = match &member.name {
                Some(member_name) => str_eq(member_name.as_str(), name),
                None => false,
            };
            if matches {
                return Some(member);
            }
            i += 1;
        }
        None
    }

    /// Internal helper method for `TypeInformation::offset_of`
    ///
    /// Returns a lightweight `OffsetError` that avoids string formatting.
    /// Errors are only formatted when converted to `Error` at the public API boundary.
    pub fn offset_of_impl<'a>(
        &self,
        offset: Offset,
        tid: u32,
        path: &mut TypePathComponentIter<'a>,
        depth: usize,
    ) -> (r: Result<
        (u32, Offset),
        OffsetError<'a>,
    >)
        ensures
            match r {
                Ok(found) => self@.offset_within(offset, tid, old(path).remaining(), depth as nat) == Ok::<
                    (u32, Offset),
                    PathFailure,
                >(found),
                Err(e) => self@.offset_within(offset, tid, old(path).remaining(), depth as nat) == Err::<
                    (u32, Offset),
                    PathFailure,
                >(e@),
            },
        decreases depth,
    {
        let mut current_offset = offset;
        let mut current_tid = tid;
        loop
            invariant
                self@.offset_within(offset, tid, old(path).remaining(), depth as nat) == self@.offset_within(
                    current_offset,
                    current_tid,
                    path.remaining(),
                    depth as nat,
                ),
            decreases path.remaining().len(),
        {
            // Save iterator position before consuming (for anonymous member probing)
            let path_for_anon = *path;
            let ghost items = path.remaining();

            // Get next component
            let component = match path.next() {
                None => {
                    return Ok((current_tid, current_offset));
                },
                Some(Ok(component)) => component,
                Some(Err(e)) => {
                    return Err(OffsetError::Btf(e));
                },
            };
            proof {
                assert(items[0] == component@);
                assert(items.drop_first() =~= path.remaining());
            }

            // Resolve through type indirections (Fwd, Typedef, Const, Volatile, Restrict)
            let type_variant = match self.resolve(current_tid) {
                Ok((_, Some(TypeVariant::Void))) | Ok((_, None)) => {
                    return Err(OffsetError::VoidDereference);
                },
                Ok((_, Some(type_variant))) => type_variant,
                Err(_) => {
                    return Err(OffsetError::InvalidTypeId);
                },
            };

            match component {
                TypePathComponent::Index(index) => {
                    match type_variant {
                        TypeVariant::Array(array) => {
                            match self.element_at(
                                current_offset,
                                *array.element_tid(),
                                *array.element_count(),
                                index,
                            ) {
                                Ok((element_tid, element_offset)) => {
                                    current_tid = element_tid;
                                    current_offset = element_offset;
                                },
                                Err(e) => {
                                    return Err(Self::widen(e));
                                },
                            }
                        },
                        TypeVariant::Ptr(_) => {
                            return Err(OffsetError::PtrNotIndexable);
                        },
                        _ => {
                            return Err(OffsetError::TypeNotIndexable);
                        },
                    }
                },
                TypePathComponent::Name(name) => {
                    let member_list = match type_variant {
                        TypeVariant::Struct(s) => s.member_list(),
                        TypeVariant::Union(u) => u.member_list(),
                        _ => {
                            return Err(OffsetError::NotStructOrUnion);
                        },
                    };
                    let ghost members = crate::btf::model::views(member_list@);

                    // Try anonymous members first (using path_for_anon which includes current component)
                    let mut i: usize = 0;
                    while i < member_list.len()
                        invariant
                            i <= member_list.len(),
                            members == crate::btf::model::views(member_list@),
                            path_for_anon.remaining() == items,
                            match self@.probe_within(current_offset, members, 0, items, depth as nat) {
                                Probe::Found(found_tid, found_offset) => self@.offset_within(
                                    offset,
                                    tid,
                                    old(path).remaining(),
                                    depth as nat,
                                ) == Ok::<(u32, Offset), PathFailure>((found_tid, found_offset)),
                                Probe::Failed(failure) => self@.offset_within(
                                    offset,
                                    tid,
                                    old(path).remaining(),
                                    depth as nat,
                                ) == Err::<(u32, Offset), PathFailure>(failure),
                                Probe::Missing => true,
                            },
                            self@.probe_within(current_offset, members, 0, items, depth as nat)
                                == self@.probe_within(current_offset, members, i as int, items, depth as nat),
                        decreases member_list.len() - i,
                    {
                        let member = &member_list[i];
                        if member.name.is_none() {
                            let member_offset = match current_offset.add(member.offset) {
                                Ok(member_offset) => member_offset,
                                Err(e) => {
                                    return Err(OffsetError::Btf(e));
                                },
                            };
                            if depth > 0 {
                                let mut anon_path = path_for_anon;
                                match self.offset_of_impl(
                                    member_offset,
                                    member.tid,
                                    &mut anon_path,
                                    depth - 1,
                                ) {
                                    Ok(found) => {
                                        return Ok(found);
                                    },
                                    Err(_) => {},
                                }
                            }
                        }
                        i += 1;
                    }

                    // Try named members
                    match Self::named_member(member_list, name) {
                        Some(member) => {
                            current_tid = member.tid;
                            current_offset = match current_offset.add(member.offset) {
                                Ok(member_offset) => member_offset,
                                Err(e) => {
                                    return Err(OffsetError::Btf(e));
                                },
                            };
                        },
                        None => {
                            return Err(OffsetError::MemberNotFound { name });
                        },
                    }
                },
            }
        }
    }

    /// The same failure for a path of any lifetime
    fn widen<'a>(e: OffsetError<'static>) -> (r: OffsetError<'a>)
        ensures
            r == e,
    {
        e
    }
}

} // verus!
