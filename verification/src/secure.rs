//! Buffers for key material that are overwritten with zeros once the key
//! has served its purpose. Wiping is an explicit call; every function of
//! this library that fills such a buffer wipes it on each of its paths.

use vstd::prelude::*;
use zeroize::Zeroize;

verus! {

/// Every byte of the sequence is zero.
pub open spec fn all_zero(s: Seq<u8>) -> bool {
    forall|i: int| 0 <= i < s.len() ==> s[i] == 0u8
}

/// Relies on `zeroize::Zeroize for [u8]`: overwrites every byte of the slice
/// with zero in place, through volatile writes that the compiler does not
/// elide, and leaves the length unchanged.
#[verifier::external_body]
pub(crate) fn zero_bytes(buf: &mut Vec<u8>)
    ensures
        final(buf)@.len() == old(buf)@.len(),
        all_zero(final(buf)@),
{
    buf.as_mut_slice().zeroize();
}

/// A byte buffer holding sensitive material (a derived key or a sub-key).
/// `wipe` overwrites the contents with zeros; callers run it on every exit
/// path once the material is no longer needed.
pub struct SecureBuffer {
    bytes: Vec<u8>,
}

impl View for SecureBuffer {
    type V = Seq<u8>;

    closed spec fn view(&self) -> Seq<u8> {
        self.bytes@
    }
}

impl SecureBuffer {
    /// Takes ownership of existing material.
    pub fn from_vec(bytes: Vec<u8>) -> (r: SecureBuffer)
        ensures
            r@ == bytes@,
    {
        SecureBuffer { bytes }
    }

    pub fn len(&self) -> (n: usize)
        ensures
            n == self@.len(),
    {
        self.bytes.len()
    }

    /// Read access for the consumer of the material (the cipher).
    pub fn bytes(&self) -> (r: &Vec<u8>)
        ensures
            r@ == self@,
    {
        &self.bytes
    }

    /// Overwrites the whole buffer with zeros, keeping its length.
    pub fn wipe(&mut self)
        ensures
            final(self)@.len() == old(self)@.len(),
            all_zero(final(self)@),
    {
        zero_bytes(&mut self.bytes);
    }
}

} // verus!
