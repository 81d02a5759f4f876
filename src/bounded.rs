//! Byte sequences whose length is bounded at the type level.
use vstd::prelude::*;

verus! {

/// A proof fingerprint of at most `MAX_BYTES_IN_HASH` bytes.
///
/// A value of this type can only be made through [`BoundedProof::try_new`],
/// so a fingerprint that exceeds the bound is never representable.
#[derive(Debug, PartialEq, Eq)]
pub struct BoundedProof<const MAX_BYTES_IN_HASH: u32> {
    bytes: Vec<u8>,
}

impl<const MAX_BYTES_IN_HASH: u32> View for BoundedProof<MAX_BYTES_IN_HASH> {
    type V = Seq<u8>;

    closed spec fn view(&self) -> Seq<u8> {
        self.bytes@
    }
}

impl<const MAX_BYTES_IN_HASH: u32> Clone for BoundedProof<MAX_BYTES_IN_HASH> {
    fn clone(&self) -> (r: Self)
        ensures
            r@ == self@,
    {
        proof {
            use_type_invariant(self);
        }
        BoundedProof { bytes: self.bytes.clone() }
    }
}

impl<const MAX_BYTES_IN_HASH: u32> BoundedProof<MAX_BYTES_IN_HASH> {
    #[verifier::type_invariant]
    spec fn within_bound(self) -> bool {
        self.bytes@.len() <= MAX_BYTES_IN_HASH as nat
    }

    /// The largest number of bytes a proof of this type may hold.
    pub open spec fn bound() -> nat {
        MAX_BYTES_IN_HASH as nat
    }

    /// Wraps `bytes` when its length is within the bound; hands the bytes
    /// back unchanged otherwise.
    pub fn try_new(bytes: Vec<u8>) -> (r: Result<Self, Vec<u8>>)
        ensures
            bytes@.len() <= Self::bound() <==> r is Ok,
            r matches Ok(p) ==> p@ == bytes@,
            r matches Err(b) ==> b@ == bytes@,
    {
        if bytes.len() <= MAX_BYTES_IN_HASH as usize {
            Ok(BoundedProof { bytes })
        } else {
            Err(bytes)
        }
    }

    /// The fingerprint's bytes.
    pub fn as_bytes(&self) -> (r: &Vec<u8>)
        ensures
            r@ == self@,
    {
        &self.bytes
    }

    /// The number of bytes in the fingerprint.
    pub fn len(&self) -> (r: usize)
        ensures
            r == self@.len(),
            r <= Self::bound(),
    {
        proof {
            use_type_invariant(self);
        }
        self.bytes.len()
    }

    /// Gives the fingerprint's bytes back.
    pub fn into_inner(self) -> (r: Vec<u8>)
        ensures
            r@ == self@,
    {
        self.bytes
    }
}

} // verus!
