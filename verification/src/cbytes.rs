//! Byte strings validated for the C boundary: the bytes of a piece of
//! text, checked to hold no nul byte, so a C string can be made of them.

use vstd::prelude::*;
use vstd::string::{StrSliceExecFns, StringSliceAdditionalSpecFns};

verus! {

/// True when `bytes` holds a nul byte anywhere.
pub open spec fn has_nul(bytes: Seq<u8>) -> bool {
    exists|i: int| 0 <= i < bytes.len() && bytes[i] == 0
}

/// The bytes of a piece of text, known to hold no nul byte.
///
/// Values exist only through the validating constructors [`CBytes::new`]
/// and [`CBytes::from_vec`], which refuse any input with a nul byte, so
/// every value of this type is ready to become a C string.
#[derive(Debug)]
pub struct CBytes {
    bytes: Vec<u8>,
}

impl View for CBytes {
    type V = Seq<u8>;

    closed spec fn view(&self) -> Seq<u8> {
        self.bytes@
    }
}

impl CBytes {
    /// The bytes never hold a nul byte.
    #[verifier::type_invariant]
    spec fn wf(&self) -> bool {
        !has_nul(self.bytes@)
    }

    /// Validates `s` for the C boundary. Returns its bytes when no nul
    /// byte occurs in them, and otherwise the position of the first one.
    pub fn new(s: &str) -> (r: Result<CBytes, usize>)
        ensures
            r is Ok <==> !has_nul(s.spec_bytes()),
            r matches Ok(c) ==> c@ == s.spec_bytes(),
            r matches Err(i) ==> 0 <= i < s.spec_bytes().len() && s.spec_bytes()[i as int] == 0
                && (forall|j: int| 0 <= j < i ==> s.spec_bytes()[j] != 0),
    {
        CBytes::from_vec(s.as_bytes_vec())
    }

    /// Validates raw bytes for the C boundary, under the same rules as
    /// [`CBytes::new`].
    pub fn from_vec(bytes: Vec<u8>) -> (r: Result<CBytes, usize>)
        ensures
            r is Ok <==> !has_nul(bytes@),
            r matches Ok(c) ==> c@ == bytes@,
            r matches Err(i) ==> 0 <= i < bytes@.len() && bytes@[i as int] == 0 && (forall|j: int|
                0 <= j < i ==> bytes@[j] != 0),
    {
        let n = bytes.len();
        let mut i: usize = 0;
        while i < n
            invariant
                n == bytes.len(),
                i <= n,
                forall|j: int| 0 <= j < i ==> bytes@[j] != 0,
            decreases n - i,
        {
            if bytes[i] == 0 {
                return Err(i);
            }
            i += 1;
        }
        Ok(CBytes { bytes })
    }

    /// The validated bytes, borrowed.
    pub fn as_bytes(&self) -> (r: &Vec<u8>)
        ensures
            r@ == self@,
    {
        &self.bytes
    }

    /// The validated bytes, handed over.
    pub fn into_bytes(self) -> (r: Vec<u8>)
        ensures
            r@ == self@,
    {
        self.bytes
    }
}

} // verus!
