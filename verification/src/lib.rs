//! Non-Local-Means denoising core.
//!
//! Each output pixel is reconstructed as a weighted average of the pixels in a
//! surrounding search window; the weight of a candidate combines a spatial
//! Gaussian factor with how similar the patch around the candidate is to the
//! patch around the target pixel.
//!
//! Floating-point arithmetic lies outside the verifier's logic, so this
//! library carries every channel value as the raw IEEE-754 single-precision
//! bit pattern (a `u32`) and proves everything that does not require float
//! evaluation: parameter validation, zero-padding, window geometry, the
//! squared-distance table behind the Gaussian weights, patch extraction, the
//! self-similarity rule, and the finiteness/clamping of the assembled output.
//! The caller evaluates the float formulas (Gaussian density, exponential
//! weighting, weighted accumulation) on the data this library hands out and
//! feeds the resulting bit patterns back in.

pub mod denoiser;
pub mod errors;
pub mod geometry;
pub mod img;
pub mod pad;
pub mod patch;
pub mod rgb;
