//! The public operation surface over G1, G2, Fr and the pairing.
//!
//! Group operations surface the backend's domain errors: an operand that
//! is not a subgroup element (nor the point at infinity) makes the
//! operation fail with `ExecutionFault` rather than return a meaningless
//! point. The subgroup predicates never fail; a structurally valid buffer
//! that is no point of the curve simply answers `false`.

use vstd::prelude::*;

use crate::bytes::be_val;
use crate::bytes::copy_bytes;
use crate::bytes::fr_order;
use crate::bytes::fr_value;
use crate::bytes::views;
use crate::engine;
use crate::engine::g1_member;
use crate::engine::g1_scaled;
use crate::engine::g1_sum;
use crate::engine::g2_member;
use crate::engine::g2_scaled;
use crate::engine::g2_sum;
use crate::engine::pairing_is_identity;
use crate::errors::Error;
use crate::points::g1_views;
use crate::points::g2_views;
use crate::points::G1Affine;
use crate::points::G2Affine;
use crate::scalar::Fr;

verus! {

/// The BN254 operation facade. It holds no state; all operations are pure
/// functions over immutable inputs producing new immutable outputs.
pub struct Bn254 {}

impl Bn254 {
    pub fn new() -> (r: Bn254) {
        Bn254 {}
    }

    /// Whether the point lies in the prime-order G1 subgroup. Never
    /// fails: a buffer that is no point of the curve answers `false`.
    pub fn g1_is_in_subgroup(&self, p: &G1Affine) -> (r: bool)
        ensures
            r == g1_member(p@),
    {
        proof {
            use_type_invariant(p);
        }
        engine::g1_point(&p.bytes).is_ok()
    }

    /// Whether the point lies in the prime-order G2 subgroup. Never
    /// fails: a buffer that is no point of the curve, or an on-curve
    /// point outside the subgroup, answers `false`.
    pub fn g2_is_in_subgroup(&self, p: &G2Affine) -> (r: bool)
        ensures
            r == g2_member(p@),
    {
        proof {
            use_type_invariant(p);
        }
        engine::g2_point(&p.bytes).is_ok()
    }

    /// G1 group addition. Succeeds exactly when both operands are
    /// subgroup elements (the point at infinity included), and then
    /// returns the canonical encoding of their sum; otherwise the
    /// backend's rejection surfaces as `ExecutionFault`.
    pub fn g1_add(&self, p0: &G1Affine, p1: &G1Affine) -> (r: Result<G1Affine, Error>)
        ensures
            r is Ok <==> g1_member(p0@) && g1_member(p1@),
            r matches Ok(q) ==> q@ == g1_sum(p0@, p1@),
            r matches Err(e) ==> e == Error::ExecutionFault,
    {
        proof {
            use_type_invariant(p0);
            use_type_invariant(p1);
        }
        match engine::g1_add_raw(&p0.bytes, &p1.bytes) {
            Ok(b) => Ok(G1Affine { bytes: b }),
            Err(e) => Err(e),
        }
    }

    /// G1 scalar multiplication, the scalar taken mod the group order.
    /// Succeeds exactly when the point is a subgroup element, and then
    /// returns the canonical encoding of the multiple.
    pub fn g1_mul(&self, p: &G1Affine, scalar: &Fr) -> (r: Result<G1Affine, Error>)
        ensures
            r is Ok <==> g1_member(p@),
            r matches Ok(q) ==> q@ == g1_scaled(p@, scalar@),
            r matches Err(e) ==> e == Error::ExecutionFault,
    {
        proof {
            use_type_invariant(p);
            use_type_invariant(scalar);
        }
        match engine::g1_mul_raw(&p.bytes, &scalar.bytes) {
            Ok(b) => Ok(G1Affine { bytes: b }),
            Err(e) => Err(e),
        }
    }

    /// G2 group addition; as [`Self::g1_add`], over G2.
    pub fn g2_add(&self, p0: &G2Affine, p1: &G2Affine) -> (r: Result<G2Affine, Error>)
        ensures
            r is Ok <==> g2_member(p0@) && g2_member(p1@),
            r matches Ok(q) ==> q@ == g2_sum(p0@, p1@),
            r matches Err(e) ==> e == Error::ExecutionFault,
    {
        proof {
            use_type_invariant(p0);
            use_type_invariant(p1);
        }
        match engine::g2_add_raw(&p0.bytes, &p1.bytes) {
            Ok(b) => Ok(G2Affine { bytes: b }),
            Err(e) => Err(e),
        }
    }

    /// G2 scalar multiplication; as [`Self::g1_mul`], over G2.
    pub fn g2_mul(&self, p: &G2Affine, scalar: &Fr) -> (r: Result<G2Affine, Error>)
        ensures
            r is Ok <==> g2_member(p@),
            r matches Ok(q) ==> q@ == g2_scaled(p@, scalar@),
            r matches Err(e) ==> e == Error::ExecutionFault,
    {
        proof {
            use_type_invariant(p);
            use_type_invariant(scalar);
        }
        match engine::g2_mul_raw(&p.bytes, &scalar.bytes) {
            Ok(b) => Ok(G2Affine { bytes: b }),
            Err(e) => Err(e),
        }
    }

    /// The batched pairing check: whether the product over i of
    /// e(vp1[i], vp2[i]) is the identity of the target group. Sequences
    /// of unequal length fail with `LengthMismatch`; the empty batch is
    /// the empty product, the identity, so it answers `true`; otherwise
    /// the check succeeds exactly when every point is a subgroup element.
    pub fn pairing_check(&self, vp1: Vec<G1Affine>, vp2: Vec<G2Affine>) -> (r: Result<bool, Error>)
        ensures
            r == Err::<bool, Error>(Error::LengthMismatch) <==> vp1@.len() != vp2@.len(),
            vp1@.len() == vp2@.len() && vp1@.len() == 0 ==> r == Ok::<bool, Error>(true),
            vp1@.len() == vp2@.len() && vp1@.len() > 0 ==> {
                &&& r is Ok <==> (forall|i: int|
                    0 <= i < vp1@.len() ==> g1_member((#[trigger] vp1@[i])@)) && (forall|i: int|
                    0 <= i < vp2@.len() ==> g2_member((#[trigger] vp2@[i])@))
                &&& (r matches Ok(b) ==> b == pairing_is_identity(g1_views(vp1@), g2_views(vp2@)))
                &&& (r matches Err(e) ==> e == Error::ExecutionFault)
            },
    {
        if vp1.len() != vp2.len() {
            return Err(Error::LengthMismatch);
        }
        if vp1.len() == 0 {
            return Ok(true);
        }
        let mut ps: Vec<Vec<u8>> = Vec::new();
        let mut i: usize = 0;
        while i < vp1.len()
            invariant
                i <= vp1@.len(),
                ps@.len() == i,
                forall|j: int|
                    0 <= j < i ==> (#[trigger] ps@[j])@ == vp1@[j]@ && ps@[j]@.len() == 64,
            decreases vp1@.len() - i,
        {
            let p = &vp1[i];
            proof {
                use_type_invariant(p);
            }
            ps.push(copy_bytes(&p.bytes));
            i = i + 1;
        }
        let mut qs: Vec<Vec<u8>> = Vec::new();
        let mut j: usize = 0;
        while j < vp2.len()
            invariant
                j <= vp2@.len(),
                vp1@.len() == vp2@.len(),
                qs@.len() == j,
                forall|k: int|
                    0 <= k < j ==> (#[trigger] qs@[k])@ == vp2@[k]@ && qs@[k]@.len() == 128,
            decreases vp2@.len() - j,
        {
            let q = &vp2[j];
            proof {
                use_type_invariant(q);
            }
            qs.push(copy_bytes(&q.bytes));
            j = j + 1;
        }
        let res = engine::pairing_raw(&ps, &qs);
        proof {
            assert(views(ps@) =~= g1_views(vp1@));
            assert(views(qs@) =~= g2_views(vp2@));
            assert forall|k: int| 0 <= k < vp1@.len() implies (#[trigger] g1_member(
                vp1@[k]@,
            )) == g1_member(ps@[k]@) by {
                assert(ps@[k]@ == vp1@[k]@);
            }
            assert forall|k: int| 0 <= k < vp2@.len() implies (#[trigger] g2_member(
                vp2@[k]@,
            )) == g2_member(qs@[k]@) by {
                assert(qs@[k]@ == vp2@[k]@);
            }
        }
        res
    }

    /// Addition in the scalar field: the canonical encoding of the sum of
    /// the two scalars' values mod the group order. Never fails.
    pub fn fr_add(&self, lhs: &Fr, rhs: &Fr) -> (r: Fr)
        ensures
            r@.len() == 32,
            be_val(r@) == (fr_value(lhs@) + fr_value(rhs@)) % fr_order(),
    {
        proof {
            use_type_invariant(lhs);
            use_type_invariant(rhs);
        }
        Fr { bytes: engine::fr_add_raw(&lhs.bytes, &rhs.bytes) }
    }

    /// Subtraction in the scalar field; as [`Self::fr_add`].
    pub fn fr_sub(&self, lhs: &Fr, rhs: &Fr) -> (r: Fr)
        ensures
            r@.len() == 32,
            be_val(r@) == (fr_value(lhs@) + fr_order() - fr_value(rhs@)) % (fr_order() as int),
    {
        proof {
            use_type_invariant(lhs);
            use_type_invariant(rhs);
        }
        Fr { bytes: engine::fr_sub_raw(&lhs.bytes, &rhs.bytes) }
    }

    /// Modular exponentiation in the scalar field; see [`Fr::pow`].
    pub fn fr_pow(&self, base: &Fr, exponent: u64) -> (r: Fr)
        ensures
            r@.len() == 32,
            be_val(r@) < fr_order(),
            be_val(r@) == vstd::arithmetic::power::pow(fr_value(base@) as int, exponent as nat) % (
            fr_order() as int),
    {
        base.pow(exponent)
    }

    /// The multiplicative inverse in the scalar field; see [`Fr::inv`].
    pub fn fr_inv(&self, value: &Fr) -> (r: Result<Fr, Error>)
        ensures
            r is Err <==> fr_value(value@) == 0,
            r matches Err(e) ==> e == Error::ZeroInverseFault,
            r matches Ok(v) ==> v@.len() == 32 && be_val(v@) < fr_order() && (be_val(v@)
                * fr_value(value@)) % fr_order() == 1,
    {
        value.inv()
    }

    /// Multiplication in the scalar field; as [`Self::fr_add`].
    pub fn fr_mul(&self, lhs: &Fr, rhs: &Fr) -> (r: Fr)
        ensures
            r@.len() == 32,
            be_val(r@) == (fr_value(lhs@) * fr_value(rhs@)) % fr_order(),
    {
        proof {
            use_type_invariant(lhs);
            use_type_invariant(rhs);
        }
        Fr { bytes: engine::fr_mul_raw(&lhs.bytes, &rhs.bytes) }
    }
}

} // verus!
