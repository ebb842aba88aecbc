use crate::btf::error::ErrorKind;
use crate::btf::offset::Offset;
use crate::btf::offset_error::PathFailure;
use crate::btf::struct_union::MemberModel;
use crate::btf::type_path::PathItem;
use crate::btf::type_variant::{TypeModel, TypeVariant};
use vstd::prelude::*;

verus! {

/// What a probe of the anonymous members of a struct or union comes to.
pub enum Probe {
    /// The path leads through an anonymous member to this type and offset
    Found(u32, Offset),
    /// The offset of an anonymous member cannot be formed
    Failed(PathFailure),
    /// The path leads through no anonymous member
    Missing,
}

/// A type graph: the types by their ids, and the two indices of names.
pub struct Graph {
    /// Maps a type id to the type
    pub types: Map<u32, TypeModel>,
    /// Maps a type name to a type id
    pub ids: Map<Seq<char>, u32>,
    /// Maps a type id to a type name
    pub names: Map<u32, Seq<char>>,
}

/// What the types of a map are.
pub open spec fn models(types: Map<u32, TypeVariant>) -> Map<u32, TypeModel> {
    types.map_values(|type_variant: TypeVariant| type_variant@)
}

/// The texts of the names of a map.
pub open spec fn texts(names: Map<u32, String>) -> Map<u32, Seq<char>> {
    names.map_values(|name: String| name@)
}

/// The list of names and ids as texts and ids.
pub open spec fn entries(names: Seq<(String, u32)>) -> Seq<(Seq<char>, u32)> {
    Seq::new(names.len(), |i: int| (names[i].0@, names[i].1))
}

/// The index from names to ids that comes of entering the names one after
/// the other: the last id entered under a name is the one that stays.
pub open spec fn index_by_name(names: Seq<(Seq<char>, u32)>) -> Map<Seq<char>, u32>
    decreases names.len(),
{
    if names.len() == 0 {
        Map::empty()
    } else {
        index_by_name(names.drop_last()).insert(names.last().0, names.last().1)
    }
}

/// The index from ids to names that comes of entering the names one after
/// the other: the last name entered under an id is the one that stays.
pub open spec fn index_by_id(names: Seq<(Seq<char>, u32)>) -> Map<u32, Seq<char>>
    decreases names.len(),
{
    if names.len() == 0 {
        Map::empty()
    } else {
        index_by_id(names.drop_last()).insert(names.last().1, names.last().0)
    }
}

/// The names and ids of the types of a list that have a name, in the order
/// of the list; the type at index `i` has the id `i + 1`.
pub open spec fn named_entries(types: Seq<TypeModel>) -> Seq<(Seq<char>, u32)>
    decreases types.len(),
{
    if types.len() == 0 {
        Seq::empty()
    } else {
        match types.last().name() {
            Some(name) => named_entries(types.drop_last()).push((name, types.len() as u32)),
            None => named_entries(types.drop_last()),
        }
    }
}

/// The graph of a list of types: the type at index `i` has the id `i + 1`,
/// and the two indices hold the names of the types in the order of the
/// list.
pub open spec fn graph_of(types: Seq<TypeModel>) -> Graph {
    Graph {
        types: Map::new(|tid: u32| 1 <= tid <= types.len(), |tid: u32| types[tid - 1]),
        ids: index_by_name(named_entries(types)),
        names: index_by_id(named_entries(types)),
    }
}

/// The member list of a struct or union; no other type has one.
pub open spec fn members_of(type_model: TypeModel) -> Option<Seq<MemberModel>> {
    match type_model {
        TypeModel::Struct(record) => Some(record.data.member_list),
        TypeModel::Union(record) => Some(record.data.member_list),
        _ => None,
    }
}

/// The first member from index `from` on that has the name `name`.
pub open spec fn find_member(
    members: Seq<MemberModel>,
    name: Seq<char>,
    from: int,
) -> Option<MemberModel>
    decreases members.len() - from,
{
    if from < 0 || from >= members.len() {
        None
    } else if members[from].name == Some(name) {
        Some(members[from])
    } else {
        find_member(members, name, from + 1)
    }
}

impl Graph {
    /// The number of references that a query follows at most, one after
    /// the other: the number of types. A chain of references that does not
    /// run in a circle is never longer.
    pub open spec fn bound(self) -> nat {
        self.types.dom().len()
    }

    /// The type with the id `tid`: the void type for 0.
    pub open spec fn type_of(self, tid: u32) -> Option<TypeModel> {
        if tid == 0 {
            Some(TypeModel::Void)
        } else if self.types.contains_key(tid) {
            Some(self.types[tid])
        } else {
            None
        }
    }

    /// The id that the name `name` stands for: 0 for `void`.
    pub open spec fn id_of(self, name: Seq<char>) -> Option<u32> {
        if name == "void"@ {
            Some(0)
        } else if self.ids.contains_key(name) {
            Some(self.ids[name])
        } else {
            None
        }
    }

    /// The name of the type with the id `tid`: `void` for 0.
    pub open spec fn name_of(self, tid: u32) -> Option<Seq<char>> {
        if tid == 0 {
            Some("void"@)
        } else if self.names.contains_key(tid) {
            Some(self.names[tid])
        } else {
            None
        }
    }

    /// The size of a pointer: half the size of the struct named
    /// `list_head`, and `InvalidTypeID` where no struct goes by that name.
    pub open spec fn pointer_size(self) -> Result<usize, ErrorKind> {
        match self.id_of("list_head"@) {
            None => Err(ErrorKind::InvalidTypeID),
            Some(tid) => match self.type_of(tid) {
                Some(TypeModel::Struct(record)) => Ok(record.data.size / 2),
                _ => Err(ErrorKind::InvalidTypeID),
            },
        }
    }

    /// The type that the pointer at the end of a chain of typedefs, consts,
    /// volatiles and restricts points to, where the chain starts at `tid`
    /// and has at most `steps` links. `InvalidTypeID` where an id is not in
    /// the graph, the chain ends at no pointer, or has more links.
    pub open spec fn pointee_within(self, tid: u32, steps: nat) -> Result<u32, ErrorKind>
        decreases steps,
    {
        match self.type_of(tid) {
            None => Err(ErrorKind::InvalidTypeID),
            Some(type_model) => match type_model {
                TypeModel::Ptr(record) => Ok(record.data.tid),
                TypeModel::Typedef(record) => if steps == 0 {
                    Err(ErrorKind::InvalidTypeID)
                } else {
                    self.pointee_within(record.data.tid, (steps - 1) as nat)
                },
                TypeModel::Const(record) => if steps == 0 {
                    Err(ErrorKind::InvalidTypeID)
                } else {
                    self.pointee_within(record.data.tid, (steps - 1) as nat)
                },
                TypeModel::Volatile(record) => if steps == 0 {
                    Err(ErrorKind::InvalidTypeID)
                } else {
                    self.pointee_within(record.data.tid, (steps - 1) as nat)
                },
                TypeModel::Restrict(record) => if steps == 0 {
                    Err(ErrorKind::InvalidTypeID)
                } else {
                    self.pointee_within(record.data.tid, (steps - 1) as nat)
                },
                _ => Err(ErrorKind::InvalidTypeID),
            },
        }
    }

    /// The type that the type with the id `tid` points to.
    pub open spec fn pointee_of(self, tid: u32) -> Result<u32, ErrorKind> {
        self.pointee_within(tid, self.bound())
    }

    /// The type that another one refers to and has its size from: none
    /// where the type has a size of its own or none at all.
    pub open spec fn sized_as(type_model: TypeModel) -> Option<u32> {
        match type_model {
            TypeModel::Var(record) => Some(record.data.tid),
            TypeModel::Typedef(record) => Some(record.data.tid),
            TypeModel::Const(record) => Some(record.data.tid),
            TypeModel::Volatile(record) => Some(record.data.tid),
            TypeModel::Restrict(record) => Some(record.data.tid),
            TypeModel::TypeTag(record) => Some(record.data.tid),
            _ => None,
        }
    }

    /// The size in bytes of the type with the id `tid`, when at most
    /// `steps` references are followed.
    ///
    /// Ints, floats, enums, structs, unions and data sections have the size
    /// in their header. An array has the size of its element times its
    /// element count, and `InvalidOffset` where that does not fit in
    /// `usize`. A pointer has the pointer size. Vars, typedefs, consts,
    /// volatiles, restricts and type tags have the size of the type they
    /// refer to. The void type, forward declarations, functions, function
    /// prototypes and decl tags have none (`NotSized`). `InvalidTypeID`
    /// where an id is not in the graph or more references would have to be
    /// followed.
    pub open spec fn size_within(self, tid: u32, steps: nat) -> Result<usize, ErrorKind>
        decreases steps,
    {
        match self.type_of(tid) {
            None => Err(ErrorKind::InvalidTypeID),
            Some(type_model) => match type_model {
                TypeModel::Ptr(_) => self.pointer_size(),
                TypeModel::Array(record) => if steps == 0 {
                    Err(ErrorKind::InvalidTypeID)
                } else {
                    match self.size_within(record.data.element_tid, (steps - 1) as nat) {
                        Err(kind) => Err(kind),
                        Ok(element_size) => if element_size * record.data.element_count > usize::MAX {
                            Err(ErrorKind::InvalidOffset)
                        } else {
                            Ok((element_size * record.data.element_count) as usize)
                        },
                    }
                },
                TypeModel::Float(record) => Ok(record.data.size),
                TypeModel::Int(record) => Ok(record.data.size),
                TypeModel::Enum(record) => Ok(record.data.size),
                TypeModel::Enum64(record) => Ok(record.data.size),
                TypeModel::Struct(record) => Ok(record.data.size),
                TypeModel::Union(record) => Ok(record.data.size),
                TypeModel::DataSec(record) => Ok(record.data.size),
                TypeModel::Void | TypeModel::Fwd(_) | TypeModel::Func(_) | TypeModel::FuncProto(_) | TypeModel::DeclTag(
                    _,
                ) => Err(ErrorKind::NotSized),
                _ => if steps == 0 {
                    Err(ErrorKind::InvalidTypeID)
                } else {
                    self.size_within(Self::sized_as(type_model)->0, (steps - 1) as nat)
                },
            },
        }
    }

    /// The size in bytes of the type with the id `tid`.
    pub open spec fn size_of(self, tid: u32) -> Result<usize, ErrorKind> {
        self.size_within(tid, self.bound())
    }

    /// The type that stands behind another one when a path steps into it:
    /// behind a forward declaration, a typedef, a const, a volatile or a
    /// restrict.
    pub open spec fn stands_for(type_model: TypeModel) -> Option<u32> {
        match type_model {
            TypeModel::Fwd(record) => Some(record.data.tid),
            TypeModel::Typedef(record) => Some(record.data.tid),
            TypeModel::Const(record) => Some(record.data.tid),
            TypeModel::Volatile(record) => Some(record.data.tid),
            TypeModel::Restrict(record) => Some(record.data.tid),
            _ => None,
        }
    }

    /// The id and the type at the end of the chain of forward declarations,
    /// typedefs, consts, volatiles and restricts that starts at `tid` and
    /// has at most `steps` links. `InvalidTypeID` where an id is not in the
    /// graph or the chain has more links.
    pub open spec fn resolve_within(
        self,
        tid: u32,
        steps: nat,
    ) -> Result<(u32, TypeModel), ErrorKind>
        decreases steps,
    {
        match self.type_of(tid) {
            None => Err(ErrorKind::InvalidTypeID),
            Some(type_model) => match Self::stands_for(type_model) {
                None => Ok((tid, type_model)),
                Some(next) => if steps == 0 {
                    Err(ErrorKind::InvalidTypeID)
                } else {
                    self.resolve_within(next, (steps - 1) as nat)
                },
            },
        }
    }

    /// The id and the type that a path steps into at the type `tid`.
    pub open spec fn resolve(self, tid: u32) -> Result<(u32, TypeModel), ErrorKind> {
        self.resolve_within(tid, self.bound())
    }

    /// Where the element `index` of an array lies that lies at `offset`:
    /// the element type and the offset of the element. The array has to
    /// have such an element, and the index times the element size has to
    /// fit in 32 bits.
    pub open spec fn element_at(
        self,
        offset: Offset,
        element_tid: u32,
        element_count: u32,
        index: usize,
    ) -> Result<(u32, Offset), PathFailure> {
        if index >= element_count {
            Err(PathFailure::IndexOutOfBounds { index, array_size: element_count })
        } else {
            match self.size_of(element_tid) {
                Err(kind) => Err(PathFailure::Other(kind)),
                Ok(element_size) => if index * element_size > u32::MAX {
                    Err(PathFailure::ArrayOffsetOverflow)
                } else {
                    match offset.plus_bytes((index * element_size) as u32) {
                        Err(kind) => Err(PathFailure::Other(kind)),
                        Ok(element_offset) => Ok((element_tid, element_offset)),
                    }
                },
            }
        }
    }

    /// The type and the offset that the path items `items` lead to from the
    /// type `tid` at `offset`, when anonymous members are entered at most
    /// `depth` deep.
    ///
    /// No item leads to the type and offset themselves. An item steps into
    /// the type that `tid` resolves to, which is not the void type. An
    /// index steps to that element of an array. A name steps to a member of
    /// a struct or union: to where the items lead through the first
    /// anonymous member through which they lead anywhere, else to the first
    /// member of that name. The failures are of the kind `InvalidTypePath`,
    /// but `InvalidTypeID` for an id that is not in the graph, and those of
    /// the size of an element and of the offset arithmetic.
    pub open spec fn offset_within(
        self,
        offset: Offset,
        tid: u32,
        items: Seq<PathItem>,
        depth: nat,
    ) -> Result<(u32, Offset), PathFailure>
        decreases depth, items.len(), 1int, 0int,
    {
        if items.len() == 0 {
            Ok((tid, offset))
        } else {
            match items[0] {
                PathItem::Invalid => Err(PathFailure::Other(ErrorKind::InvalidTypePath)),
                PathItem::Index(index) => match self.resolve(tid) {
                    Err(_) => Err(PathFailure::InvalidTypeId),
                    Ok((_, TypeModel::Void)) => Err(PathFailure::VoidDereference),
                    Ok((_, TypeModel::Array(record))) => match self.element_at(
                        offset,
                        record.data.element_tid,
                        record.data.element_count,
                        index,
                    ) {
                        Err(failure) => Err(failure),
                        Ok((element_tid, element_offset)) => self.offset_within(
                            element_offset,
                            element_tid,
                            items.drop_first(),
                            depth,
                        ),
                    },
                    Ok((_, TypeModel::Ptr(_))) => Err(PathFailure::PtrNotIndexable),
                    Ok(_) => Err(PathFailure::TypeNotIndexable),
                },
                PathItem::Name(name) => match self.resolve(tid) {
                    Err(_) => Err(PathFailure::InvalidTypeId),
                    Ok((_, TypeModel::Void)) => Err(PathFailure::VoidDereference),
                    Ok((_, type_model)) => match members_of(type_model) {
                        None => Err(PathFailure::NotStructOrUnion),
                        Some(members) => match self.probe_within(offset, members, 0, items, depth) {
                            Probe::Found(found_tid, found_offset) => Ok((found_tid, found_offset)),
                            Probe::Failed(failure) => Err(failure),
                            Probe::Missing => match find_member(members, name, 0) {
                                None => Err(PathFailure::MemberNotFound { name }),
                                Some(member) => match offset.plus(member.offset) {
                                    Err(kind) => Err(PathFailure::Other(kind)),
                                    Ok(member_offset) => self.offset_within(
                                        member_offset,
                                        member.tid,
                                        items.drop_first(),
                                        depth,
                                    ),
                                },
                            },
                        },
                    },
                },
            }
        }
    }

    /// What the probe of the anonymous members from index `from` on comes
    /// to, for the items `items` at a struct or union that lies at
    /// `offset`. The members are tried in their order; one through which
    /// the items lead nowhere, or that lies deeper than `depth`, is passed
    /// over.
    pub open spec fn probe_within(
        self,
        offset: Offset,
        members: Seq<MemberModel>,
        from: int,
        items: Seq<PathItem>,
        depth: nat,
    ) -> Probe
        decreases depth, items.len(), 0int, members.len() - from,
    {
        if from < 0 || from >= members.len() {
            Probe::Missing
        } else if members[from].name is Some {
            self.probe_within(offset, members, from + 1, items, depth)
        } else {
            match offset.plus(members[from].offset) {
                Err(kind) => Probe::Failed(PathFailure::Other(kind)),
                Ok(member_offset) => if depth == 0 {
                    self.probe_within(offset, members, from + 1, items, depth)
                } else {
                    match self.offset_within(member_offset, members[from].tid, items, (depth - 1) as nat) {
                        Ok((found_tid, found_offset)) => Probe::Found(found_tid, found_offset),
                        Err(_) => self.probe_within(offset, members, from + 1, items, depth),
                    }
                },
            }
        }
    }

    /// The type and the offset that the path items `items` lead to from the
    /// type `tid`.
    pub open spec fn offset_of(
        self,
        tid: u32,
        items: Seq<PathItem>,
    ) -> Result<(u32, Offset), PathFailure> {
        self.offset_within(Offset::ByteOffset(0), tid, items, self.bound())
    }
}

} // verus!
