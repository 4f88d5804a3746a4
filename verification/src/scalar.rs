//! The scalar field Fr.
//!
//! A scalar is held as the 32 bytes it was decoded from; its field value
//! is that big-endian integer reduced mod the group order, and every
//! arithmetic result is written back canonically, below the order.
//! Exponentiation is computed here by verified square-and-multiply over
//! the backend's modular multiplication.

use vstd::prelude::*;

use vstd::arithmetic::div_mod::lemma_mul_mod_noop_general;
use vstd::arithmetic::div_mod::lemma_small_mod;
use vstd::arithmetic::mul::lemma_mul_is_associative;
use vstd::arithmetic::power::lemma_pow0;
use vstd::arithmetic::power::lemma_pow1;
use vstd::arithmetic::power::lemma_pow_adds;
use vstd::arithmetic::power::lemma_pow_mod_noop;
use vstd::arithmetic::power::lemma_pow_multiplies;
use vstd::arithmetic::power::lemma_square_is_pow2;
use vstd::arithmetic::power::pow;

use crate::bytes::be_val;
use crate::bytes::copy_bytes;
use crate::bytes::fr_order;
use crate::bytes::fr_value;
use crate::bytes::lemma_be_val_push;
use crate::engine::fr_inv_raw;
use crate::engine::fr_mul_raw;
use crate::errors::Error;

verus! {

/// A scalar-field element, stored as a 32-byte big-endian unsigned
/// integer. Decoding performs no range check; arithmetic treats the
/// stored value reduced mod the group order.
pub struct Fr {
    pub(crate) bytes: Vec<u8>,
}

impl View for Fr {
    type V = Seq<u8>;

    open(crate) spec fn view(&self) -> Seq<u8> {
        self.bytes@
    }
}

/// The canonical 32-byte encoding of the scalar one.
fn fr_one() -> (r: Vec<u8>)
    ensures
        r@.len() == 32,
        be_val(r@) == 1,
{
    let mut out: Vec<u8> = Vec::new();
    let mut i: usize = 0;
    while i < 31
        invariant
            i <= 31,
            out@.len() == i,
            be_val(out@) == 0,
        decreases 31 - i,
    {
        proof {
            lemma_be_val_push(out@, 0);
        }
        out.push(0);
        i = i + 1;
    }
    proof {
        lemma_be_val_push(out@, 1);
    }
    out.push(1);
    out
}

/// One step of square-and-multiply: multiplying the accumulator in when
/// the exponent is odd and squaring the base, all mod `rr`, halves the
/// exponent without changing the accumulated power.
proof fn lemma_pow_step(va: int, vb: int, k: nat, rr: int)
    requires
        rr > 1,
        va >= 0,
        vb >= 0,
    ensures
        k % 2 == 1 ==> ((((va % rr) * (vb % rr)) % rr) * pow((((vb % rr) * (vb % rr)) % rr),
            (k / 2) as nat)) % rr == (va * pow(vb, k)) % rr,
        k % 2 == 0 ==> (va * pow((((vb % rr) * (vb % rr)) % rr), (k / 2) as nat)) % rr == (va
            * pow(vb, k)) % rr,
{
    let m = (k / 2) as nat;
    let b2 = ((vb % rr) * (vb % rr)) % rr;
    lemma_mul_mod_noop_general(vb, vb, rr);
    assert(b2 == (vb * vb) % rr);
    lemma_pow_mod_noop(vb * vb, m, rr);
    assert(pow(b2, m) % rr == pow(vb * vb, m) % rr);
    lemma_square_is_pow2(vb);
    lemma_pow_multiplies(vb, 2, m);
    assert(pow(vb * vb, m) == pow(vb, 2 * m));
    if k % 2 == 0 {
        lemma_mul_mod_noop_general(va, pow(b2, m), rr);
        lemma_mul_mod_noop_general(va, pow(vb, 2 * m), rr);
        assert((va * pow(b2, m)) % rr == (va * pow(vb, 2 * m)) % rr);
        assert(2 * m == k);
    } else {
        let vap = ((va % rr) * (vb % rr)) % rr;
        lemma_mul_mod_noop_general(va, vb, rr);
        assert(vap == (va * vb) % rr);
        lemma_mul_mod_noop_general(va * vb, pow(b2, m), rr);
        lemma_mul_mod_noop_general(va * vb, pow(vb, 2 * m), rr);
        assert((vap * pow(b2, m)) % rr == ((va * vb) * pow(vb, 2 * m)) % rr);
        lemma_pow1(vb);
        lemma_pow_adds(vb, 1, 2 * m);
        assert(vb * pow(vb, 2 * m) == pow(vb, 2 * m + 1));
        lemma_mul_is_associative(va, vb, pow(vb, 2 * m));
        assert((va * vb) * pow(vb, 2 * m) == va * pow(vb, 2 * m + 1));
        assert(2 * m + 1 == k);
    }
}

/// Raising any scalar to the exponent zero yields the multiplicative
/// identity: the zeroth power of every value, the additive identity
/// included, is one.
pub proof fn lemma_pow_zero_is_identity(x: Seq<u8>)
    ensures
        pow(fr_value(x) as int, 0nat) % (fr_order() as int) == 1,
{
    lemma_pow0(fr_value(x) as int);
    lemma_small_mod(1nat, fr_order());
}

impl Fr {
    #[verifier::type_invariant]
    pub open(crate) spec fn wf(self) -> bool {
        self.bytes@.len() == 32
    }

    /// Decodes a scalar; fails exactly when the buffer is not 32 bytes
    /// long, and the scalar holds the buffer bit for bit. No range check
    /// against the group order is made here.
    pub fn from_bytes(b: &Vec<u8>) -> (r: Result<Fr, Error>)
        ensures
            r is Ok <==> b@.len() == 32,
            r matches Ok(v) ==> v@ == b@,
            r matches Err(e) ==> e == Error::InvalidEncoding,
    {
        if b.len() != 32 {
            return Err(Error::InvalidEncoding);
        }
        Ok(Fr { bytes: copy_bytes(b) })
    }

    /// Re-encodes the scalar: exactly the 32 bytes it was built from.
    pub fn to_bytes(&self) -> (r: Vec<u8>)
        ensures
            r@ == self@,
            r@.len() == 32,
    {
        proof {
            use_type_invariant(self);
        }
        copy_bytes(&self.bytes)
    }

    /// Modular exponentiation by a 64-bit exponent: the result is the
    /// canonical encoding of this scalar's value raised to `e` in the
    /// scalar field. The exponent zero yields the multiplicative identity,
    /// for the additive identity as the base too.
    pub fn pow(&self, e: u64) -> (r: Fr)
        ensures
            r@.len() == 32,
            be_val(r@) < fr_order(),
            be_val(r@) == pow(fr_value(self@) as int, e as nat) % (fr_order() as int),
    {
        proof {
            use_type_invariant(self);
        }
        let ghost rr: int = fr_order() as int;
        let ghost x0: int = be_val(self@) as int;
        let mut acc = fr_one();
        let mut base = copy_bytes(&self.bytes);
        let mut k = e;
        proof {
            lemma_pow_mod_noop(x0, e as nat, rr);
            lemma_small_mod(1nat, fr_order());
        }
        while k > 0
            invariant
                rr == fr_order() as int,
                acc@.len() == 32,
                base@.len() == 32,
                be_val(acc@) < fr_order(),
                (be_val(acc@) as int * pow(be_val(base@) as int, k as nat)) % rr == pow(
                    fr_value(self@) as int,
                    e as nat,
                ) % rr,
            decreases k,
        {
            let ghost va: int = be_val(acc@) as int;
            let ghost vb: int = be_val(base@) as int;
            let ghost kk: nat = k as nat;
            if k % 2 == 1 {
                acc = fr_mul_raw(&acc, &base);
            }
            base = fr_mul_raw(&base, &base);
            k = k / 2;
            proof {
                lemma_pow_step(va, vb, kk, rr);
                if kk % 2 == 1 {
                    lemma_small_mod(va as nat, fr_order());
                }
            }
        }
        proof {
            lemma_pow0(be_val(base@) as int);
            lemma_small_mod(be_val(acc@), fr_order());
        }
        Fr { bytes: acc }
    }

    /// The multiplicative inverse in the scalar field. Fails with
    /// `ZeroInverseFault` exactly when this scalar is the additive
    /// identity; otherwise the result is canonical and its product with
    /// this scalar is one.
    pub fn inv(&self) -> (r: Result<Fr, Error>)
        ensures
            r is Err <==> fr_value(self@) == 0,
            r matches Err(e) ==> e == Error::ZeroInverseFault,
            r matches Ok(v) ==> v@.len() == 32 && be_val(v@) < fr_order() && (be_val(v@)
                * fr_value(self@)) % fr_order() == 1,
    {
        proof {
            use_type_invariant(self);
        }
        match fr_inv_raw(&self.bytes) {
            Some(b) => Ok(Fr { bytes: b }),
            None => Err(Error::ZeroInverseFault),
        }
    }
}

} // verus!
