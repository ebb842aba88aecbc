use crate::btf::error::{and_then, Error, ErrorKind};
use crate::btf::file_header::FileHeader;
use crate::btf::header::{type_section, type_section_bounds, Header};
use vstd::prelude::*;

verus! {

/// What a type of one kind is: its header, and what its kind adds.
pub struct TypeRecord<D> {
    /// The type header
    pub header: Header,
    /// What the kind adds to the header
    pub data: D,
}

/// The text of a name that may be absent.
pub open spec fn name_view(name: Option<String>) -> Option<Seq<char>> {
    match name {
        Some(text) => Some(text@),
        None => None,
    }
}

/// The views of the items of a list, in its order.
pub open spec fn views<T: View>(items: Seq<T>) -> Seq<T::V> {
    Seq::new(items.len(), |i: int| items[i]@)
}

/// The views of a list with one more item are the views of the list with
/// the view of the item behind them.
pub proof fn lemma_views_push<T: View>(items: Seq<T>, item: T)
    ensures
        views(items.push(item)) == views(items).push(item@),
{
    assert(views(items.push(item)) =~= views(items).push(item@));
}

/// Whether a tail of `required` bytes at `offset` lies inside the type
/// section. A type without a tail fits anywhere.
pub open spec fn tail_fits(
    file_header: FileHeader,
    offset: int,
    required: int,
) -> Result<(), ErrorKind> {
    if required > 0 {
        and_then(type_section(file_header), |section: (u32, u32)|
            if offset < section.0 || offset + required > section.1 {
                Err(ErrorKind::InvalidTypeSectionOffset)
            } else {
                Ok(())
            })
    } else {
        Ok(())
    }
}

/// Whether a decoded value is a view of what the bytes of the source
/// determine, when decoding may also have failed in transport.
pub open spec fn view_agrees<T: View>(
    r: Result<T, Error>,
    expected: Result<T::V, ErrorKind>,
    reliable: bool,
) -> bool {
    match r {
        Ok(value) => expected == Ok::<T::V, ErrorKind>(value@),
        Err(e) => expected == Err::<T::V, ErrorKind>(e.kind) || (!reliable && e.kind == ErrorKind::IOError),
    }
}

/// Checks that a tail of `required` bytes at `offset` lies inside the type section
pub fn check_tail(
    file_header: &FileHeader,
    offset: usize,
    required: usize,
) -> (r: Result<(), Error>)
    ensures
        match r {
            Ok(()) => tail_fits(*file_header, offset as int, required as int) is Ok,
            Err(e) => tail_fits(*file_header, offset as int, required as int) is Err && e.kind
                == ErrorKind::InvalidTypeSectionOffset,
        },
{
    if required > 0 {
        let (type_section_start, type_section_end) = type_section_bounds(file_header)?;
        if offset < type_section_start as usize {
            return Err(Error::new(ErrorKind::InvalidTypeSectionOffset, "Invalid type section offset"));
        }
        if required > usize::MAX - offset || offset + required > type_section_end as usize {
            return Err(Error::new(ErrorKind::InvalidTypeSectionOffset, "Invalid type section offset"));
        }
    }
    Ok(())
}

/// Copies a name that may be absent
pub fn clone_name(name: &Option<String>) -> (copy: Option<String>)
    ensures
        name_view(copy) == name_view(*name),
{
    match name {
        Some(text) => Some(text.clone()),
        None => None,
    }
}

} // verus!
