use vstd::prelude::*;

verus! {

/// The unsigned integer a big-endian byte string denotes.
pub open spec fn be_val(s: Seq<u8>) -> nat
    decreases s.len(),
{
    if s.len() == 0 {
        0
    } else {
        be_val(s.drop_last()) * 256 + s.last() as nat
    }
}

/// The order of the BN254 scalar field Fr, the prime number of elements of
/// the G1 and G2 subgroups.
pub open spec fn fr_order() -> nat {
    0x30644e72e131a029b85045b68181585d2833e84879b9709143e1f593f0000001 as nat
}

/// The scalar a 32-byte buffer denotes: its big-endian value reduced into
/// the scalar field.
pub open spec fn fr_value(s: Seq<u8>) -> nat {
    be_val(s) % fr_order()
}

/// True of a buffer whose bytes are all zero, the canonical encoding of the
/// point at infinity.
pub open spec fn zero_seq(s: Seq<u8>) -> bool {
    forall|i: int| 0 <= i < s.len() ==> s[i] == 0
}

/// The byte strings held by a sequence of buffers.
pub open spec fn views(s: Seq<Vec<u8>>) -> Seq<Seq<u8>> {
    s.map_values(|v: Vec<u8>| v@)
}

/// Appending one byte shifts the denoted value up by one base-256 digit.
pub proof fn lemma_be_val_push(s: Seq<u8>, x: u8)
    ensures
        be_val(s.push(x)) == be_val(s) * 256 + x,
{
    assert(s.push(x).drop_last() =~= s);
}

/// An exact copy of a byte buffer.
pub fn copy_bytes(v: &Vec<u8>) -> (r: Vec<u8>)
    ensures
        r@ == v@,
{
    let mut out: Vec<u8> = Vec::new();
    let mut i: usize = 0;
    while i < v.len()
        invariant
            i <= v@.len(),
            out@ == v@.subrange(0, i as int),
        decreases v@.len() - i,
    {
        out.push(v[i]);
        assert(v@.subrange(0, (i + 1) as int) =~= v@.subrange(0, i as int).push(v@[i as int]));
        i = i + 1;
    }
    assert(v@.subrange(0, v@.len() as int) =~= v@);
    out
}

/// Whether every byte of the buffer is zero.
pub fn is_all_zero(v: &Vec<u8>) -> (r: bool)
    ensures
        r == zero_seq(v@),
{
    let mut i: usize = 0;
    while i < v.len()
        invariant
            i <= v@.len(),
            forall|j: int| 0 <= j < i ==> v@[j] == 0,
        decreases v@.len() - i,
    {
        if v[i] != 0 {
            return false;
        }
        i = i + 1;
    }
    true
}

} // verus!
