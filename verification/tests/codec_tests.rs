use bn254::Error;
use bn254::Fp;
use bn254::Fp2;
use bn254::Fr;
use bn254::G1Affine;
use bn254::G2Affine;

fn pattern_bytes(len: usize) -> Vec<u8> {
    (0..len).map(|i| (i * 7 + 3) as u8).collect()
}

#[test]
fn fp_round_trip() {
    let b = pattern_bytes(32);
    let fp = Fp::from_bytes(&b).unwrap();
    assert_eq!(fp.to_bytes(), b);
}

#[test]
fn fp_rejects_wrong_length() {
    assert_eq!(Fp::from_bytes(&pattern_bytes(31)).err(), Some(Error::InvalidEncoding));
    assert_eq!(Fp::from_bytes(&pattern_bytes(33)).err(), Some(Error::InvalidEncoding));
    assert_eq!(Fp::from_bytes(&Vec::new()).err(), Some(Error::InvalidEncoding));
}

#[test]
fn fp2_round_trip() {
    let b = pattern_bytes(64);
    let fp2 = Fp2::from_bytes(&b).unwrap();
    assert_eq!(fp2.to_bytes(), b);
}

#[test]
fn fp2_rejects_wrong_length() {
    assert_eq!(Fp2::from_bytes(&pattern_bytes(32)).err(), Some(Error::InvalidEncoding));
    assert_eq!(Fp2::from_bytes(&pattern_bytes(65)).err(), Some(Error::InvalidEncoding));
}

#[test]
fn fr_round_trip() {
    let b = pattern_bytes(32);
    let fr = Fr::from_bytes(&b).unwrap();
    assert_eq!(fr.to_bytes(), b);
}

#[test]
fn fr_rejects_wrong_length() {
    assert_eq!(Fr::from_bytes(&pattern_bytes(16)).err(), Some(Error::InvalidEncoding));
    assert_eq!(Fr::from_bytes(&pattern_bytes(64)).err(), Some(Error::InvalidEncoding));
}

#[test]
fn g1_round_trip() {
    let b = pattern_bytes(64);
    let p = G1Affine::from_bytes(&b).unwrap();
    assert_eq!(p.to_bytes(), b);
}

#[test]
fn g1_rejects_wrong_length() {
    assert_eq!(G1Affine::from_bytes(&pattern_bytes(63)).err(), Some(Error::InvalidLength));
    assert_eq!(G1Affine::from_bytes(&pattern_bytes(128)).err(), Some(Error::InvalidLength));
}

#[test]
fn g2_round_trip() {
    let b = pattern_bytes(128);
    let p = G2Affine::from_bytes(&b).unwrap();
    assert_eq!(p.to_bytes(), b);
}

#[test]
fn g2_rejects_wrong_length() {
    assert_eq!(G2Affine::from_bytes(&pattern_bytes(64)).err(), Some(Error::InvalidLength));
    assert_eq!(G2Affine::from_bytes(&pattern_bytes(129)).err(), Some(Error::InvalidLength));
}

#[test]
fn encode_then_decode_gives_equal_entity() {
    let b = pattern_bytes(64);
    let p = G1Affine::from_bytes(&b).unwrap();
    let q = G1Affine::from_bytes(&p.to_bytes()).unwrap();
    assert_eq!(p.to_bytes(), q.to_bytes());
}
