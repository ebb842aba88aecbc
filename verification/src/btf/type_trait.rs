use crate::btf::header::Header;
use vstd::prelude::*;

verus! {

/// Common methods for all BTF types
pub trait Type {
    /// The type header.
    spec fn type_header(&self) -> Header;

    /// Returns the type header
    fn header(&self) -> (header: &Header)
        ensures
            *header == self.type_header(),
    ;
}

} // verus!
