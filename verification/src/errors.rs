use vstd::prelude::*;

verus! {

/// Every failure the library reports.
///
/// All errors are returned as explicit result values; no operation retries
/// internally and none substitutes a silent default.
#[derive(Clone, Copy, Debug, PartialEq, Eq, Structural)]
pub enum Error {
    /// A field-element buffer does not have the fixed width of its type.
    InvalidEncoding,
    /// A curve-point buffer does not have the fixed width of its type.
    InvalidLength,
    /// The two sequences handed to the batched pairing check differ in length.
    LengthMismatch,
    /// A scalar too large for its fixed serialized width. The scalars here
    /// are held as 32-byte values, so no operation of this crate produces it;
    /// the variant completes the error taxonomy for callers that share it.
    Overflow,
    /// The multiplicative inverse of the additive identity was requested.
    ZeroInverseFault,
    /// The arithmetic backend rejected an input outside its domain, such as
    /// a structurally valid buffer that is not a point of the curve.
    ExecutionFault,
}

} // verus!
