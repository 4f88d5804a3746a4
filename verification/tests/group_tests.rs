use bn254::Bn254;
use bn254::Error;
use bn254::Fr;
use bn254::G1Affine;
use bn254::G2Affine;

const FR_ORDER_MINUS_1_HEX: &str =
    "30644e72e131a029b85045b68181585d2833e84879b9709143e1f593f0000000";

/// The standard G2 generator, X(c1 ‖ c0) ‖ Y(c1 ‖ c0).
const G2_GENERATOR_HEX: &str = "198e9393920d483a7260bfb731fb5d25f1aa493335a9e71297e485b7aef312c21800deef121f1e76426a00665e5c4479674322d4f75edadd46debd5cd992f6ed090689d0585ff075ec9e99ad690c3395bc4b313370b38ef355acdadcd122975b12c85ea5db8c6deb4aab71808dcb408fe3d1e7690c43d37b4ce6cc0166fa7daa";

fn decode_hex(s: &str) -> Vec<u8> {
    assert!(s.len() % 2 == 0);
    let digit = |c: u8| -> u8 {
        match c {
            b'0'..=b'9' => c - b'0',
            b'a'..=b'f' => c - b'a' + 10,
            _ => panic!("not a hex digit"),
        }
    };
    let raw = s.as_bytes();
    (0..s.len() / 2).map(|i| digit(raw[2 * i]) * 16 + digit(raw[2 * i + 1])).collect()
}

fn g1_generator() -> G1Affine {
    let mut b = vec![0u8; 64];
    b[31] = 1;
    b[63] = 2;
    G1Affine::from_bytes(&b).unwrap()
}

fn g2_generator() -> G2Affine {
    G2Affine::from_bytes(&decode_hex(G2_GENERATOR_HEX)).unwrap()
}

fn fr_of_u64(v: u64) -> Fr {
    let mut b = vec![0u8; 32];
    b[24..32].copy_from_slice(&v.to_be_bytes());
    Fr::from_bytes(&b).unwrap()
}

fn fr_order_minus_1() -> Fr {
    Fr::from_bytes(&decode_hex(FR_ORDER_MINUS_1_HEX)).unwrap()
}

#[test]
fn g1_generator_is_in_subgroup() {
    assert!(Bn254::new().g1_is_in_subgroup(&g1_generator()));
}

#[test]
fn g1_infinity_is_in_subgroup() {
    let zero = G1Affine::from_bytes(&vec![0u8; 64]).unwrap();
    assert!(Bn254::new().g1_is_in_subgroup(&zero));
}

#[test]
fn g1_garbage_is_not_in_subgroup() {
    // Well-formed length, but (1, 1) does not satisfy y^2 = x^3 + 3.
    let mut b = vec![0u8; 64];
    b[31] = 1;
    b[63] = 1;
    let p = G1Affine::from_bytes(&b).unwrap();
    assert!(!Bn254::new().g1_is_in_subgroup(&p));
}

#[test]
fn g1_non_canonical_coordinate_is_not_in_subgroup() {
    // X holds the base-field modulus itself, which is not canonical.
    let modulus = decode_hex("30644e72e131a029b85045b68181585d97816a916871ca8d3c208c16d87cfd47");
    let mut b = modulus.clone();
    b.extend_from_slice(&vec![0u8; 31]);
    b.push(2);
    let p = G1Affine::from_bytes(&b).unwrap();
    assert!(!Bn254::new().g1_is_in_subgroup(&p));
}

#[test]
fn g1_add_identity_returns_point() {
    let api = Bn254::new();
    let gen = g1_generator();
    let zero = G1Affine::from_bytes(&vec![0u8; 64]).unwrap();
    let sum = api.g1_add(&gen, &zero).unwrap();
    assert_eq!(sum.to_bytes(), gen.to_bytes());
}

#[test]
fn g1_add_inverse_gives_infinity() {
    let api = Bn254::new();
    let gen = g1_generator();
    let neg = api.g1_mul(&gen, &fr_order_minus_1()).unwrap();
    let sum = api.g1_add(&gen, &neg).unwrap();
    assert_eq!(sum.to_bytes(), vec![0u8; 64]);
}

#[test]
fn g1_mul_by_zero_gives_infinity() {
    let api = Bn254::new();
    let prod = api.g1_mul(&g1_generator(), &fr_of_u64(0)).unwrap();
    assert_eq!(prod.to_bytes(), vec![0u8; 64]);
}

#[test]
fn g1_mul_by_one_returns_point() {
    let api = Bn254::new();
    let gen = g1_generator();
    let prod = api.g1_mul(&gen, &fr_of_u64(1)).unwrap();
    assert_eq!(prod.to_bytes(), gen.to_bytes());
}

#[test]
fn g1_mul_distributes_over_scalar_addition() {
    let api = Bn254::new();
    let gen = g1_generator();
    let a = fr_of_u64(3);
    let b = fr_of_u64(5);
    let lhs = api.g1_mul(&gen, &api.fr_add(&a, &b)).unwrap();
    let rhs = api.g1_add(&api.g1_mul(&gen, &a).unwrap(), &api.g1_mul(&gen, &b).unwrap()).unwrap();
    assert_eq!(lhs.to_bytes(), rhs.to_bytes());
}

#[test]
fn g1_mul_reduces_scalar_mod_order() {
    // The group order denotes the scalar zero, so order * P is infinity.
    let api = Bn254::new();
    let order = decode_hex("30644e72e131a029b85045b68181585d2833e84879b9709143e1f593f0000001");
    let prod = api.g1_mul(&g1_generator(), &Fr::from_bytes(&order).unwrap()).unwrap();
    assert_eq!(prod.to_bytes(), vec![0u8; 64]);
}

#[test]
fn g1_add_rejects_invalid_point() {
    let api = Bn254::new();
    let mut b = vec![0u8; 64];
    b[31] = 1;
    b[63] = 1;
    let garbage = G1Affine::from_bytes(&b).unwrap();
    assert_eq!(api.g1_add(&garbage, &g1_generator()).err(), Some(Error::ExecutionFault));
}

#[test]
fn g2_generator_is_in_subgroup() {
    assert!(Bn254::new().g2_is_in_subgroup(&g2_generator()));
}

#[test]
fn g2_infinity_is_in_subgroup() {
    let zero = G2Affine::from_bytes(&vec![0u8; 128]).unwrap();
    assert!(Bn254::new().g2_is_in_subgroup(&zero));
}

#[test]
fn g2_garbage_is_not_in_subgroup() {
    let mut b = vec![0u8; 128];
    b[63] = 1;
    b[127] = 1;
    let p = G2Affine::from_bytes(&b).unwrap();
    assert!(!Bn254::new().g2_is_in_subgroup(&p));
}

#[test]
fn g2_add_inverse_gives_infinity() {
    let api = Bn254::new();
    let gen = g2_generator();
    let neg = api.g2_mul(&gen, &fr_order_minus_1()).unwrap();
    let sum = api.g2_add(&gen, &neg).unwrap();
    assert_eq!(sum.to_bytes(), vec![0u8; 128]);
}

#[test]
fn g2_mul_by_one_returns_point() {
    let api = Bn254::new();
    let gen = g2_generator();
    let prod = api.g2_mul(&gen, &fr_of_u64(1)).unwrap();
    assert_eq!(prod.to_bytes(), gen.to_bytes());
}

#[test]
fn g2_add_rejects_invalid_point() {
    let api = Bn254::new();
    let mut b = vec![0u8; 128];
    b[63] = 1;
    b[127] = 1;
    let garbage = G2Affine::from_bytes(&b).unwrap();
    assert_eq!(api.g2_add(&garbage, &g2_generator()).err(), Some(Error::ExecutionFault));
}
