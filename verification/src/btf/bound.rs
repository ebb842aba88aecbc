use crate::btf::error::ErrorKind;
use crate::btf::graph::Graph;
use crate::btf::type_variant::TypeModel;
use vstd::prelude::*;

verus! {

/// The type that the size of a type depends on: the element of an array
/// and the type that a var, typedef, const, volatile, restrict or type tag
/// refers to.
pub open spec fn size_reference(type_model: TypeModel) -> Option<u32> {
    match type_model {
        TypeModel::Array(record) => Some(record.data.element_tid),
        _ => Graph::sized_as(type_model),
    }
}

/// The type that a type hands the search for a pointer on to: the one that
/// a typedef, const, volatile or restrict refers to.
pub open spec fn pointee_reference(type_model: TypeModel) -> Option<u32> {
    match type_model {
        TypeModel::Typedef(record) => Some(record.data.tid),
        TypeModel::Const(record) => Some(record.data.tid),
        TypeModel::Volatile(record) => Some(record.data.tid),
        TypeModel::Restrict(record) => Some(record.data.tid),
        _ => None,
    }
}

/// Whether the chain of references that starts at the type `tid` ends
/// after `steps` links at most: at a type that refers to no other, or at an
/// id that is not in the graph.
pub open spec fn chain_ends(
    graph: Graph,
    reference: spec_fn(TypeModel) -> Option<u32>,
    tid: u32,
    steps: nat,
) -> bool
    decreases steps,
{
    match graph.type_of(tid) {
        None => true,
        Some(type_model) => match reference(type_model) {
            None => true,
            Some(next) => steps > 0 && chain_ends(graph, reference, next, (steps - 1) as nat),
        },
    }
}

/// A chain that ends after some links ends after more.
pub proof fn lemma_chain_ends_later(
    graph: Graph,
    reference: spec_fn(TypeModel) -> Option<u32>,
    tid: u32,
    steps: nat,
    more: nat,
)
    requires
        chain_ends(graph, reference, tid, steps),
        steps <= more,
    ensures
        chain_ends(graph, reference, tid, more),
    decreases steps,
{
    match graph.type_of(tid) {
        None => {},
        Some(type_model) => match reference(type_model) {
            None => {},
            Some(next) => {
                lemma_chain_ends_later(graph, reference, next, (steps - 1) as nat, (more - 1) as nat);
            },
        },
    }
}

/// The number of links after which a chain ends, and not before.
proof fn chain_length(
    graph: Graph,
    reference: spec_fn(TypeModel) -> Option<u32>,
    tid: u32,
    steps: nat,
) -> (length: nat)
    requires
        chain_ends(graph, reference, tid, steps),
    ensures
        length <= steps,
        chain_ends(graph, reference, tid, length),
        length > 0 ==> !chain_ends(graph, reference, tid, (length - 1) as nat),
    decreases steps,
{
    if steps > 0 && chain_ends(graph, reference, tid, (steps - 1) as nat) {
        chain_length(graph, reference, tid, (steps - 1) as nat)
    } else {
        steps
    }
}

/// The types along a chain that ends after `length` links and not before:
/// as many types of the graph as the chain has links.
proof fn chain_types(
    graph: Graph,
    reference: spec_fn(TypeModel) -> Option<u32>,
    tid: u32,
    length: nat,
) -> (types: Set<u32>)
    requires
        reference(TypeModel::Void) is None,
        chain_ends(graph, reference, tid, length),
        length > 0 ==> !chain_ends(graph, reference, tid, (length - 1) as nat),
    ensures
        types.finite(),
        types.len() == length,
        types.subset_of(graph.types.dom()),
        forall|other: u32| types.contains(other) ==> chain_ends(graph, reference, other, length),
    decreases length,
{
    if length == 0 {
        Set::empty()
    } else {
        let next = reference(graph.type_of(tid)->0)->0;
        let rest = chain_types(graph, reference, next, (length - 1) as nat);
        assert forall|other: u32| rest.contains(other) implies chain_ends(graph, reference, other, length) by {
            lemma_chain_ends_later(graph, reference, other, (length - 1) as nat, length);
        }
        rest.insert(tid)
    }
}

/// In a graph of finitely many types, a chain of references that ends at
/// all ends after as many links as the graph has types, at most: a longer
/// chain runs in a circle.
pub proof fn lemma_chain_ends_within_bound(
    graph: Graph,
    reference: spec_fn(TypeModel) -> Option<u32>,
    tid: u32,
    steps: nat,
)
    requires
        graph.types.dom().finite(),
        reference(TypeModel::Void) is None,
        chain_ends(graph, reference, tid, steps),
    ensures
        chain_ends(graph, reference, tid, graph.bound()),
{
    let length = chain_length(graph, reference, tid, steps);
    let types = chain_types(graph, reference, tid, length);
    vstd::set_lib::lemma_len_subset(types, graph.types.dom());
    lemma_chain_ends_later(graph, reference, tid, length, graph.bound());
}

/// The size of a type whose chain of references ends after `steps` links
/// is the same however many more links may be followed.
proof fn lemma_size_is_settled(graph: Graph, tid: u32, steps: nat, more: nat)
    requires
        chain_ends(graph, |type_model: TypeModel| size_reference(type_model), tid, steps),
        steps <= more,
    ensures
        graph.size_within(tid, more) == graph.size_within(tid, steps),
    decreases steps,
{
    match graph.type_of(tid) {
        None => {},
        Some(type_model) => match size_reference(type_model) {
            None => {},
            Some(next) => {
                lemma_size_is_settled(graph, next, (steps - 1) as nat, (more - 1) as nat);
            },
        },
    }
}

/// The size of a type whose chain of references does not end after `steps`
/// links is not found when `steps` links may be followed.
proof fn lemma_size_is_cut_off(graph: Graph, tid: u32, steps: nat)
    requires
        !chain_ends(graph, |type_model: TypeModel| size_reference(type_model), tid, steps),
    ensures
        graph.size_within(tid, steps) == Err::<usize, ErrorKind>(ErrorKind::InvalidTypeID),
    decreases steps,
{
    if steps > 0 {
        let next = size_reference(graph.type_of(tid)->0)->0;
        lemma_size_is_cut_off(graph, next, (steps - 1) as nat);
    }
}

/// The size of a type is what comes of following references without any
/// bound, wherever that comes to an end: to follow more references than the
/// graph has types changes nothing.
pub proof fn lemma_size_bound_suffices(graph: Graph, tid: u32, steps: nat)
    requires
        graph.types.dom().finite(),
        steps >= graph.bound(),
    ensures
        graph.size_within(tid, steps) == graph.size_of(tid),
{
    let reference = |type_model: TypeModel| size_reference(type_model);
    if chain_ends(graph, reference, tid, steps) {
        lemma_chain_ends_within_bound(graph, reference, tid, steps);
        lemma_size_is_settled(graph, tid, graph.bound(), steps);
    } else {
        if chain_ends(graph, reference, tid, graph.bound()) {
            lemma_chain_ends_later(graph, reference, tid, graph.bound(), steps);
        }
        lemma_size_is_cut_off(graph, tid, steps);
        lemma_size_is_cut_off(graph, tid, graph.bound());
    }
}

/// A var, typedef, const, volatile, restrict or type tag has the size of
/// the type that it refers to, and an array the size of its element times
/// its element count.
pub proof fn lemma_size_is_handed_on(graph: Graph, tid: u32)
    requires
        graph.types.dom().finite(),
        graph.type_of(tid) matches Some(type_model) && size_reference(type_model) is Some,
    ensures
        match graph.type_of(tid)->0 {
            TypeModel::Array(record) => graph.size_of(tid) == match graph.size_of(record.data.element_tid) {
                Err(kind) => Err::<usize, ErrorKind>(kind),
                Ok(element_size) => if element_size * record.data.element_count > usize::MAX {
                    Err(ErrorKind::InvalidOffset)
                } else {
                    Ok((element_size * record.data.element_count) as usize)
                },
            },
            type_model => graph.size_of(tid) == graph.size_of(size_reference(type_model)->0),
        },
{
    let next = size_reference(graph.type_of(tid)->0)->0;
    lemma_size_bound_suffices(graph, tid, graph.bound() + 1);
    lemma_size_bound_suffices(graph, next, graph.bound());
}

/// A typedef, const, volatile or restrict of a type points to what that
/// type points to.
pub proof fn lemma_pointee_is_handed_on(graph: Graph, tid: u32)
    requires
        graph.types.dom().finite(),
        graph.type_of(tid) matches Some(type_model) && pointee_reference(type_model) is Some,
    ensures
        graph.pointee_of(tid) == graph.pointee_of(pointee_reference(graph.type_of(tid)->0)->0),
{
    let next = pointee_reference(graph.type_of(tid)->0)->0;
    lemma_pointee_bound_suffices(graph, tid, graph.bound() + 1);
    lemma_pointee_bound_suffices(graph, next, graph.bound());
}

/// The pointee of a type whose chain of references ends after `steps`
/// links is the same however many more links may be followed.
proof fn lemma_pointee_is_settled(graph: Graph, tid: u32, steps: nat, more: nat)
    requires
        chain_ends(graph, |type_model: TypeModel| pointee_reference(type_model), tid, steps),
        steps <= more,
    ensures
        graph.pointee_within(tid, more) == graph.pointee_within(tid, steps),
    decreases steps,
{
    match graph.type_of(tid) {
        None => {},
        Some(type_model) => match pointee_reference(type_model) {
            None => {},
            Some(next) => {
                lemma_pointee_is_settled(graph, next, (steps - 1) as nat, (more - 1) as nat);
            },
        },
    }
}

/// The pointee of a type whose chain of references does not end after
/// `steps` links is not found when `steps` links may be followed.
proof fn lemma_pointee_is_cut_off(graph: Graph, tid: u32, steps: nat)
    requires
        !chain_ends(graph, |type_model: TypeModel| pointee_reference(type_model), tid, steps),
    ensures
        graph.pointee_within(tid, steps) == Err::<u32, ErrorKind>(ErrorKind::InvalidTypeID),
    decreases steps,
{
    if steps > 0 {
        let next = pointee_reference(graph.type_of(tid)->0)->0;
        lemma_pointee_is_cut_off(graph, next, (steps - 1) as nat);
    }
}

/// The pointee of a type is what comes of following references without any
/// bound, wherever that comes to an end.
pub proof fn lemma_pointee_bound_suffices(graph: Graph, tid: u32, steps: nat)
    requires
        graph.types.dom().finite(),
        steps >= graph.bound(),
    ensures
        graph.pointee_within(tid, steps) == graph.pointee_of(tid),
{
    let reference = |type_model: TypeModel| pointee_reference(type_model);
    if chain_ends(graph, reference, tid, steps) {
        lemma_chain_ends_within_bound(graph, reference, tid, steps);
        lemma_pointee_is_settled(graph, tid, graph.bound(), steps);
    } else {
        if chain_ends(graph, reference, tid, graph.bound()) {
            lemma_chain_ends_later(graph, reference, tid, graph.bound(), steps);
        }
        lemma_pointee_is_cut_off(graph, tid, steps);
        lemma_pointee_is_cut_off(graph, tid, graph.bound());
    }
}

/// The type that a path steps into, where the chain of references ends
/// after `steps` links, is the same however many more links may be
/// followed.
proof fn lemma_resolve_is_settled(graph: Graph, tid: u32, steps: nat, more: nat)
    requires
        chain_ends(graph, |type_model: TypeModel| Graph::stands_for(type_model), tid, steps),
        steps <= more,
    ensures
        graph.resolve_within(tid, more) == graph.resolve_within(tid, steps),
    decreases steps,
{
    match graph.type_of(tid) {
        None => {},
        Some(type_model) => match Graph::stands_for(type_model) {
            None => {},
            Some(next) => {
                lemma_resolve_is_settled(graph, next, (steps - 1) as nat, (more - 1) as nat);
            },
        },
    }
}

/// The type that a path steps into is not found when the chain of
/// references does not end after the `steps` links that may be followed.
proof fn lemma_resolve_is_cut_off(graph: Graph, tid: u32, steps: nat)
    requires
        !chain_ends(graph, |type_model: TypeModel| Graph::stands_for(type_model), tid, steps),
    ensures
        graph.resolve_within(tid, steps) == Err::<(u32, TypeModel), ErrorKind>(ErrorKind::InvalidTypeID),
    decreases steps,
{
    if steps > 0 {
        let next = Graph::stands_for(graph.type_of(tid)->0)->0;
        lemma_resolve_is_cut_off(graph, next, (steps - 1) as nat);
    }
}

/// The type that a path steps into is what comes of following references
/// without any bound, wherever that comes to an end.
pub proof fn lemma_resolve_bound_suffices(graph: Graph, tid: u32, steps: nat)
    requires
        graph.types.dom().finite(),
        steps >= graph.bound(),
    ensures
        graph.resolve_within(tid, steps) == graph.resolve(tid),
{
    let reference = |type_model: TypeModel| Graph::stands_for(type_model);
    if chain_ends(graph, reference, tid, steps) {
        lemma_chain_ends_within_bound(graph, reference, tid, steps);
        lemma_resolve_is_settled(graph, tid, graph.bound(), steps);
    } else {
        if chain_ends(graph, reference, tid, graph.bound()) {
            lemma_chain_ends_later(graph, reference, tid, graph.bound(), steps);
        }
        lemma_resolve_is_cut_off(graph, tid, steps);
        lemma_resolve_is_cut_off(graph, tid, graph.bound());
    }
}

} // verus!
