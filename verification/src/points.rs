//! Affine curve points as fixed-width byte values.
//!
//! Construction from raw bytes validates the structural shape (exact
//! length) only. Whether the coordinates lie on the curve and in the
//! prime-order subgroup is a separate, possibly expensive check that
//! callers invoke explicitly through the facade; a decoded point carries
//! no such promise.

use vstd::prelude::*;

use crate::bytes::copy_bytes;
use crate::errors::Error;

verus! {

/// The byte strings a sequence of G1 points holds.
pub open spec fn g1_views(s: Seq<G1Affine>) -> Seq<Seq<u8>> {
    s.map_values(|p: G1Affine| p@)
}

/// The byte strings a sequence of G2 points holds.
pub open spec fn g2_views(s: Seq<G2Affine>) -> Seq<Seq<u8>> {
    s.map_values(|p: G2Affine| p@)
}

/// A G1 point: X(32) ‖ Y(32), both base-field elements, 64 bytes in all.
/// All bytes zero encodes the point at infinity.
pub struct G1Affine {
    pub(crate) bytes: Vec<u8>,
}

impl View for G1Affine {
    type V = Seq<u8>;

    open(crate) spec fn view(&self) -> Seq<u8> {
        self.bytes@
    }
}

impl G1Affine {
    #[verifier::type_invariant]
    pub open(crate) spec fn wf(self) -> bool {
        self.bytes@.len() == 64
    }

    /// Decodes a point structurally; fails exactly when the buffer is not
    /// 64 bytes long, and the point holds the buffer bit for bit.
    pub fn from_bytes(b: &Vec<u8>) -> (r: Result<G1Affine, Error>)
        ensures
            r is Ok <==> b@.len() == 64,
            r matches Ok(p) ==> p@ == b@,
            r matches Err(e) ==> e == Error::InvalidLength,
    {
        if b.len() != 64 {
            return Err(Error::InvalidLength);
        }
        Ok(G1Affine { bytes: copy_bytes(b) })
    }

    /// Re-encodes the point: exactly the 64 bytes it was built from.
    pub fn to_bytes(&self) -> (r: Vec<u8>)
        ensures
            r@ == self@,
            r@.len() == 64,
    {
        proof {
            use_type_invariant(self);
        }
        copy_bytes(&self.bytes)
    }
}

/// A G2 point: X(Fp2, 64) ‖ Y(Fp2, 64), each coordinate laid out c1 ‖ c0,
/// 128 bytes in all. All bytes zero encodes the point at infinity.
pub struct G2Affine {
    pub(crate) bytes: Vec<u8>,
}

impl View for G2Affine {
    type V = Seq<u8>;

    open(crate) spec fn view(&self) -> Seq<u8> {
        self.bytes@
    }
}

impl G2Affine {
    #[verifier::type_invariant]
    pub open(crate) spec fn wf(self) -> bool {
        self.bytes@.len() == 128
    }

    /// Decodes a point structurally; fails exactly when the buffer is not
    /// 128 bytes long, and the point holds the buffer bit for bit.
    pub fn from_bytes(b: &Vec<u8>) -> (r: Result<G2Affine, Error>)
        ensures
            r is Ok <==> b@.len() == 128,
            r matches Ok(p) ==> p@ == b@,
            r matches Err(e) ==> e == Error::InvalidLength,
    {
        if b.len() != 128 {
            return Err(Error::InvalidLength);
        }
        Ok(G2Affine { bytes: copy_bytes(b) })
    }

    /// Re-encodes the point: exactly the 128 bytes it was built from.
    pub fn to_bytes(&self) -> (r: Vec<u8>)
        ensures
            r@ == self@,
            r@.len() == 128,
    {
        proof {
            use_type_invariant(self);
        }
        copy_bytes(&self.bytes)
    }
}

} // verus!
