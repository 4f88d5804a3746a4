//! Base-field elements as fixed-width big-endian byte values.
//!
//! Decoding validates the structural shape (exact length) only; no
//! canonical-range check against the base-field modulus is made here.
//! Range reduction, where an operation needs it, is the arithmetic
//! backend's concern.

use vstd::prelude::*;

use crate::bytes::copy_bytes;
use crate::errors::Error;

verus! {

/// A base-field element: a 32-byte big-endian unsigned integer.
pub struct Fp {
    pub(crate) bytes: Vec<u8>,
}

impl View for Fp {
    type V = Seq<u8>;

    open(crate) spec fn view(&self) -> Seq<u8> {
        self.bytes@
    }
}

impl Fp {
    #[verifier::type_invariant]
    pub open(crate) spec fn wf(self) -> bool {
        self.bytes@.len() == 32
    }

    /// Decodes a base-field element; fails exactly when the buffer is not
    /// 32 bytes long, and the element holds the buffer bit for bit.
    pub fn from_bytes(b: &Vec<u8>) -> (r: Result<Fp, Error>)
        ensures
            r is Ok <==> b@.len() == 32,
            r matches Ok(v) ==> v@ == b@,
            r matches Err(e) ==> e == Error::InvalidEncoding,
    {
        if b.len() != 32 {
            return Err(Error::InvalidEncoding);
        }
        Ok(Fp { bytes: copy_bytes(b) })
    }

    /// Re-encodes the element: exactly the 32 bytes it was built from.
    pub fn to_bytes(&self) -> (r: Vec<u8>)
        ensures
            r@ == self@,
            r@.len() == 32,
    {
        proof {
            use_type_invariant(self);
        }
        copy_bytes(&self.bytes)
    }
}

/// A quadratic-extension element: two base-field components laid out
/// c1 ‖ c0, 64 bytes in all.
pub struct Fp2 {
    pub(crate) bytes: Vec<u8>,
}

impl View for Fp2 {
    type V = Seq<u8>;

    open(crate) spec fn view(&self) -> Seq<u8> {
        self.bytes@
    }
}

impl Fp2 {
    #[verifier::type_invariant]
    pub open(crate) spec fn wf(self) -> bool {
        self.bytes@.len() == 64
    }

    /// Decodes an extension element; fails exactly when the buffer is not
    /// 64 bytes long, and the element holds the buffer bit for bit.
    pub fn from_bytes(b: &Vec<u8>) -> (r: Result<Fp2, Error>)
        ensures
            r is Ok <==> b@.len() == 64,
            r matches Ok(v) ==> v@ == b@,
            r matches Err(e) ==> e == Error::InvalidEncoding,
    {
        if b.len() != 64 {
            return Err(Error::InvalidEncoding);
        }
        Ok(Fp2 { bytes: copy_bytes(b) })
    }

    /// Re-encodes the element: exactly the 64 bytes it was built from.
    pub fn to_bytes(&self) -> (r: Vec<u8>)
        ensures
            r@ == self@,
            r@.len() == 64,
    {
        proof {
            use_type_invariant(self);
        }
        copy_bytes(&self.bytes)
    }
}

} // verus!
