//! The trusted boundary to the `substrate_bn` arithmetic backend.
//!
//! Everything below either declares an outside type opaquely or wraps one
//! backend operation in an `external_body` function whose contract Verus
//! believes. The results of the curve-group operations are functions of
//! their byte-level arguments alone, so each is given a name by an
//! uninterpreted spec function; the codec and facade layers are verified
//! against those names.

use vstd::prelude::*;

use crate::bytes::be_val;
use crate::bytes::fr_order;
use crate::bytes::fr_value;
use crate::bytes::is_all_zero;
use crate::bytes::views;
use crate::errors::Error;

verus! {

#[verifier::external_type_specification]
#[verifier::external_body]
pub struct ExG1(substrate_bn::G1);

#[verifier::external_type_specification]
#[verifier::external_body]
pub struct ExG2(substrate_bn::G2);

/// Whether a 64-byte buffer denotes an element of the G1 subgroup: either
/// the all-zero encoding of the point at infinity, or X(32) ‖ Y(32) with
/// both coordinates canonical base-field elements satisfying the curve
/// equation. The G1 cofactor is 1, so every point of the curve lies in the
/// prime-order subgroup.
pub uninterp spec fn g1_member(p: Seq<u8>) -> bool;

/// Whether a 128-byte buffer denotes an element of the G2 subgroup: either
/// the all-zero encoding of the point at infinity, or X(Fp2) ‖ Y(Fp2) with
/// canonical coordinates on the curve and the point of prime order.
pub uninterp spec fn g2_member(p: Seq<u8>) -> bool;

/// The canonical 64-byte encoding of the sum of the two G1 points the
/// arguments denote.
pub uninterp spec fn g1_sum(a: Seq<u8>, b: Seq<u8>) -> Seq<u8>;

/// The canonical 128-byte encoding of the sum of the two G2 points the
/// arguments denote.
pub uninterp spec fn g2_sum(a: Seq<u8>, b: Seq<u8>) -> Seq<u8>;

/// The canonical 64-byte encoding of the G1 point `p` multiplied by the
/// scalar that `k` denotes, the big-endian value of `k` reduced mod the
/// group order.
pub uninterp spec fn g1_scaled(p: Seq<u8>, k: Seq<u8>) -> Seq<u8>;

/// The canonical 128-byte encoding of the G2 point `p` multiplied by the
/// scalar that `k` denotes.
pub uninterp spec fn g2_scaled(p: Seq<u8>, k: Seq<u8>) -> Seq<u8>;

/// Whether the product over i of the optimal-Ate pairings
/// e(ps[i], qs[i]) is the identity of the target group.
pub uninterp spec fn pairing_is_identity(ps: Seq<Seq<u8>>, qs: Seq<Seq<u8>>) -> bool;

/// Relies on `substrate_bn::Fq::from_slice`, which rejects a 32-byte
/// coordinate not below the base-field modulus, and on
/// `substrate_bn::AffineG1::new`, which rejects coordinates that do not
/// satisfy the curve equation. The all-zero buffer is the point at
/// infinity, `substrate_bn::G1::zero`.
#[verifier::external_body]
pub(crate) fn g1_point(p: &Vec<u8>) -> (r: Result<substrate_bn::G1, Error>)
    requires
        p@.len() == 64,
    ensures
        r is Ok <==> g1_member(p@),
        r matches Err(e) ==> e == Error::ExecutionFault,
{
    if is_all_zero(p) {
        return Ok(<substrate_bn::G1 as substrate_bn::Group>::zero());
    }
    let x = substrate_bn::Fq::from_slice(&p[0..32]).map_err(|_| Error::ExecutionFault)?;
    let y = substrate_bn::Fq::from_slice(&p[32..64]).map_err(|_| Error::ExecutionFault)?;
    let a = substrate_bn::AffineG1::new(x, y).map_err(|_| Error::ExecutionFault)?;
    Ok(substrate_bn::G1::from(a))
}

/// Relies on `substrate_bn::Fq::from_slice` and `substrate_bn::AffineG2::new`;
/// the latter rejects coordinates off the curve and, because it checks the
/// order of the point, also on-curve points outside the prime-order
/// subgroup. Each Fp2 coordinate is laid out c1 ‖ c0. The all-zero buffer
/// is the point at infinity, `substrate_bn::G2::zero`.
#[verifier::external_body]
pub(crate) fn g2_point(p: &Vec<u8>) -> (r: Result<substrate_bn::G2, Error>)
    requires
        p@.len() == 128,
    ensures
        r is Ok <==> g2_member(p@),
        r matches Err(e) ==> e == Error::ExecutionFault,
{
    if is_all_zero(p) {
        return Ok(<substrate_bn::G2 as substrate_bn::Group>::zero());
    }
    let xi = substrate_bn::Fq::from_slice(&p[0..32]).map_err(|_| Error::ExecutionFault)?;
    let xr = substrate_bn::Fq::from_slice(&p[32..64]).map_err(|_| Error::ExecutionFault)?;
    let yi = substrate_bn::Fq::from_slice(&p[64..96]).map_err(|_| Error::ExecutionFault)?;
    let yr = substrate_bn::Fq::from_slice(&p[96..128]).map_err(|_| Error::ExecutionFault)?;
    let a = substrate_bn::AffineG2::new(substrate_bn::Fq2::new(xr, xi), substrate_bn::Fq2::new(yr, yi))
        .map_err(|_| Error::ExecutionFault)?;
    Ok(substrate_bn::G2::from(a))
}

/// Relies on the Jacobian group addition of `substrate_bn::G1` and on
/// `substrate_bn::AffineG1::from_jacobian` and `substrate_bn::Fq::to_big_endian`
/// for the canonical affine encoding of the sum; the point at infinity
/// encodes as all zeroes.
#[verifier::external_body]
pub(crate) fn g1_add_raw(p0: &Vec<u8>, p1: &Vec<u8>) -> (r: Result<Vec<u8>, Error>)
    requires
        p0@.len() == 64,
        p1@.len() == 64,
    ensures
        r is Ok <==> (g1_member(p0@) && g1_member(p1@)),
        r matches Ok(v) ==> v@ == g1_sum(p0@, p1@) && v@.len() == 64,
        r matches Err(e) ==> e == Error::ExecutionFault,
{
    let a = g1_point(p0)?;
    let b = g1_point(p1)?;
    let mut out = vec![0u8; 64];
    if let Some(s) = substrate_bn::AffineG1::from_jacobian(a + b) {
        let _ = s.x().to_big_endian(&mut out[0..32]);
        let _ = s.y().to_big_endian(&mut out[32..64]);
    }
    Ok(out)
}

/// Relies on the scalar multiplication of `substrate_bn::G1` by a
/// `substrate_bn::Fr` built with `Fr::from_slice`, which reduces the
/// 32-byte big-endian scalar mod the group order, and on the same affine
/// encoding as the addition.
#[verifier::external_body]
pub(crate) fn g1_mul_raw(p: &Vec<u8>, k: &Vec<u8>) -> (r: Result<Vec<u8>, Error>)
    requires
        p@.len() == 64,
        k@.len() == 32,
    ensures
        r is Ok <==> g1_member(p@),
        r matches Ok(v) ==> v@ == g1_scaled(p@, k@) && v@.len() == 64,
        r matches Err(e) ==> e == Error::ExecutionFault,
{
    let a = g1_point(p)?;
    let s = substrate_bn::Fr::from_slice(k.as_slice()).map_err(|_| Error::ExecutionFault)?;
    let mut out = vec![0u8; 64];
    if let Some(q) = substrate_bn::AffineG1::from_jacobian(a * s) {
        let _ = q.x().to_big_endian(&mut out[0..32]);
        let _ = q.y().to_big_endian(&mut out[32..64]);
    }
    Ok(out)
}

/// Relies on the Jacobian group addition of `substrate_bn::G2` and on
/// `substrate_bn::AffineG2::from_jacobian` for the canonical affine
/// encoding, each Fp2 coordinate written c1 ‖ c0; the point at infinity
/// encodes as all zeroes.
#[verifier::external_body]
pub(crate) fn g2_add_raw(p0: &Vec<u8>, p1: &Vec<u8>) -> (r: Result<Vec<u8>, Error>)
    requires
        p0@.len() == 128,
        p1@.len() == 128,
    ensures
        r is Ok <==> (g2_member(p0@) && g2_member(p1@)),
        r matches Ok(v) ==> v@ == g2_sum(p0@, p1@) && v@.len() == 128,
        r matches Err(e) ==> e == Error::ExecutionFault,
{
    let a = g2_point(p0)?;
    let b = g2_point(p1)?;
    let mut out = vec![0u8; 128];
    if let Some(s) = substrate_bn::AffineG2::from_jacobian(a + b) {
        let _ = s.x().imaginary().to_big_endian(&mut out[0..32]);
        let _ = s.x().real().to_big_endian(&mut out[32..64]);
        let _ = s.y().imaginary().to_big_endian(&mut out[64..96]);
        let _ = s.y().real().to_big_endian(&mut out[96..128]);
    }
    Ok(out)
}

/// Relies on the scalar multiplication of `substrate_bn::G2`, the scalar
/// read as for G1, and on the same affine encoding as the G2 addition.
#[verifier::external_body]
pub(crate) fn g2_mul_raw(p: &Vec<u8>, k: &Vec<u8>) -> (r: Result<Vec<u8>, Error>)
    requires
        p@.len() == 128,
        k@.len() == 32,
    ensures
        r is Ok <==> g2_member(p@),
        r matches Ok(v) ==> v@ == g2_scaled(p@, k@) && v@.len() == 128,
        r matches Err(e) ==> e == Error::ExecutionFault,
{
    let a = g2_point(p)?;
    let s = substrate_bn::Fr::from_slice(k.as_slice()).map_err(|_| Error::ExecutionFault)?;
    let mut out = vec![0u8; 128];
    if let Some(q) = substrate_bn::AffineG2::from_jacobian(a * s) {
        let _ = q.x().imaginary().to_big_endian(&mut out[0..32]);
        let _ = q.x().real().to_big_endian(&mut out[32..64]);
        let _ = q.y().imaginary().to_big_endian(&mut out[64..96]);
        let _ = q.y().real().to_big_endian(&mut out[96..128]);
    }
    Ok(out)
}

/// Relies on `substrate_bn::pairing_batch`, which multiplies the optimal-Ate
/// pairings of the pairs and is the identity exactly when that product is
/// `substrate_bn::Gt::one`; the points are read as in the other wrappers.
#[verifier::external_body]
pub(crate) fn pairing_raw(ps: &Vec<Vec<u8>>, qs: &Vec<Vec<u8>>) -> (r: Result<bool, Error>)
    requires
        ps@.len() == qs@.len(),
        forall|i: int| 0 <= i < ps@.len() ==> (#[trigger] ps@[i])@.len() == 64,
        forall|i: int| 0 <= i < qs@.len() ==> (#[trigger] qs@[i])@.len() == 128,
    ensures
        r is Ok <==> ((forall|i: int| 0 <= i < ps@.len() ==> g1_member((#[trigger] ps@[i])@))
            && (forall|i: int| 0 <= i < qs@.len() ==> g2_member((#[trigger] qs@[i])@))),
        r matches Ok(b) ==> b == pairing_is_identity(views(ps@), views(qs@)),
        r matches Err(e) ==> e == Error::ExecutionFault,
{
    let pairs: Result<std::vec::Vec<(substrate_bn::G1, substrate_bn::G2)>, Error> =
        ps.iter().zip(qs.iter()).map(|(p, q)| Ok((g1_point(p)?, g2_point(q)?))).collect();
    Ok(substrate_bn::pairing_batch(&pairs?) == substrate_bn::Gt::one())
}

/// Relies on the modular addition of `substrate_bn::Fr`, both operands read
/// with `Fr::from_slice` (big-endian, reduced mod the group order) and the
/// sum written canonically through `Fr::into_u256` and
/// `arith::U256::to_big_endian`.
#[verifier::external_body]
pub(crate) fn fr_add_raw(a: &Vec<u8>, b: &Vec<u8>) -> (r: Vec<u8>)
    requires
        a@.len() == 32,
        b@.len() == 32,
    ensures
        r@.len() == 32,
        be_val(r@) == (fr_value(a@) + fr_value(b@)) % fr_order(),
{
    let x = substrate_bn::Fr::from_slice(a.as_slice()).unwrap();
    let y = substrate_bn::Fr::from_slice(b.as_slice()).unwrap();
    let mut out = vec![0u8; 32];
    let _ = (x + y).into_u256().to_big_endian(&mut out);
    out
}

/// Relies on the modular subtraction of `substrate_bn::Fr`, read and
/// written as in the addition.
#[verifier::external_body]
pub(crate) fn fr_sub_raw(a: &Vec<u8>, b: &Vec<u8>) -> (r: Vec<u8>)
    requires
        a@.len() == 32,
        b@.len() == 32,
    ensures
        r@.len() == 32,
        be_val(r@) == (fr_value(a@) + fr_order() - fr_value(b@)) % (fr_order() as int),
{
    let x = substrate_bn::Fr::from_slice(a.as_slice()).unwrap();
    let y = substrate_bn::Fr::from_slice(b.as_slice()).unwrap();
    let mut out = vec![0u8; 32];
    let _ = (x - y).into_u256().to_big_endian(&mut out);
    out
}

/// Relies on the modular multiplication of `substrate_bn::Fr`, read and
/// written as in the addition.
#[verifier::external_body]
pub(crate) fn fr_mul_raw(a: &Vec<u8>, b: &Vec<u8>) -> (r: Vec<u8>)
    requires
        a@.len() == 32,
        b@.len() == 32,
    ensures
        r@.len() == 32,
        be_val(r@) == (fr_value(a@) * fr_value(b@)) % fr_order(),
{
    let x = substrate_bn::Fr::from_slice(a.as_slice()).unwrap();
    let y = substrate_bn::Fr::from_slice(b.as_slice()).unwrap();
    let mut out = vec![0u8; 32];
    let _ = (x * y).into_u256().to_big_endian(&mut out);
    out
}

/// Relies on `substrate_bn::Fr::inverse`, which returns the multiplicative
/// inverse in the scalar field and `None` exactly for the additive
/// identity; the operand is read and the inverse written as in the
/// addition.
#[verifier::external_body]
pub(crate) fn fr_inv_raw(a: &Vec<u8>) -> (r: Option<Vec<u8>>)
    requires
        a@.len() == 32,
    ensures
        r is Some <==> fr_value(a@) != 0,
        r matches Some(v) ==> v@.len() == 32 && be_val(v@) < fr_order()
            && (be_val(v@) * fr_value(a@)) % fr_order() == 1,
{
    let x = substrate_bn::Fr::from_slice(a.as_slice()).unwrap();
    match x.inverse() {
        Some(inv) => {
            let mut out = vec![0u8; 32];
            let _ = inv.into_u256().to_big_endian(&mut out);
            Some(out)
        }
        None => None,
    }
}

} // verus!
