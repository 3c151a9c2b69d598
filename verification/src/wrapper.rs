//! Trait for types that stand for one owned, reference-counted C object.

use vstd::prelude::*;

verus! {

/// Trait for types that wrap a C pointer and provide a safe interface to
/// the underlying C object. The pointer itself stays on the unverified
/// side of the boundary; here it is carried as a plain value.
pub trait Wrapper: Sized {
    /// The plain value standing for the pointer to the C object.
    type Ptr;

    /// The pointer value this wrapper holds, for specifications.
    spec fn ptr_spec(&self) -> Self::Ptr;

    /// Construct this wrapper type from the pointer value of the
    /// corresponding C object. The wrapper assumes ownership: exactly one
    /// close or free is owed for it afterwards.
    fn from_ptr(ptr: Self::Ptr) -> (r: Self)
        ensures
            r.ptr_spec() == ptr,
    ;

    /// Returns the pointer value of the underlying C object, so that the
    /// unverified shell can perform foreign calls on it.
    fn as_ptr(&self) -> (r: Self::Ptr)
        ensures
            r == self.ptr_spec(),
    ;
}

} // verus!
