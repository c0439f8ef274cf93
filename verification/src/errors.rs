use vstd::prelude::*;

verus! {

/// Errors the denoising core can report.
#[derive(Clone, Copy, Debug, PartialEq, Eq, Structural)]
pub enum DenoiseError {
    /// Zero-area image, or the padded dimensions would overflow.
    InvalidInput,
    /// The filtering parameter is not a positive float; the weighting
    /// function would be undefined (division by zero) or not-a-number.
    InvalidParameter,
    /// A non-finite value surfaced in a normalized channel. With valid
    /// parameters the normalizer has a positive floor, so this is a
    /// defensive guard, not an expected path.
    ComputationAnomaly,
}

} // verus!
