//! BN254 (alt-bn128) elliptic-curve primitives: fixed-width big-endian
//! encoding and decoding of field elements and curve points, scalar-field
//! arithmetic, subgroup validation, and a batched pairing check.
//!
//! Construction from raw bytes validates structural shape (exact length)
//! only; curve and subgroup membership is a separate, explicit check that
//! callers invoke through [`facade::Bn254::g1_is_in_subgroup`] and
//! [`facade::Bn254::g2_is_in_subgroup`].
//!
//! The modular big-integer arithmetic, the curve group operations and the
//! optimal-Ate pairing itself are delegated to the audited `substrate_bn`
//! backend through the narrow trusted interface in [`engine`].

pub mod bytes;
pub mod engine;
pub mod errors;
pub mod facade;
pub mod field;
pub mod points;
pub mod scalar;

pub use errors::Error;
pub use facade::Bn254;
pub use field::Fp;
pub use field::Fp2;
pub use points::G1Affine;
pub use points::G2Affine;
pub use scalar::Fr;
