use vstd::prelude::*;
use crate::errors::DenoiseError;

verus! {

/// Bit pattern of the single-precision float `0.0`.
pub const ZERO_BITS: u32 = 0x0000_0000;

/// Bit pattern of the single-precision float `1.0`.
pub const ONE_BITS: u32 = 0x3F80_0000;

/// Bit pattern of the single-precision float `+infinity`; every pattern
/// strictly above it (with the sign bit clear) encodes a NaN.
pub const POS_INF_BITS: u32 = 0x7F80_0000;

/// One pixel: three channels, each the raw IEEE-754 single-precision bit
/// pattern of a value conventionally in `[0, 1]`.
#[derive(Clone, Copy, Debug, PartialEq, Eq, Structural)]
pub struct Rgb {
    pub r: u32,
    pub g: u32,
    pub b: u32,
}

/// The zero pixel: every channel is the bit pattern of `0.0`.
pub open spec fn rgb_zero() -> Rgb {
    Rgb { r: ZERO_BITS, g: ZERO_BITS, b: ZERO_BITS }
}

/// The exponent field of a single-precision bit pattern.
pub open spec fn exponent_bits(c: u32) -> u32 {
    (c >> 23u32) & 0xFFu32
}

/// A bit pattern encodes a finite float exactly when its exponent field is
/// not all ones (all ones encodes an infinity or a NaN).
pub open spec fn finite_bits(c: u32) -> bool {
    exponent_bits(c) != 0xFFu32
}

/// A bit pattern encodes a value in `[0.0, 1.0]`. For non-negative finite
/// floats the IEEE-754 bit-pattern order agrees with the numeric order, and
/// every pattern at or below `ONE_BITS` has the sign bit clear and a
/// non-maximal exponent, so this is exactly the encodings of `[0.0, 1.0]`.
pub open spec fn unit_bits(c: u32) -> bool {
    c <= ONE_BITS
}

/// Every channel of the pixel lies in `[0.0, 1.0]`.
pub open spec fn rgb_unit(p: Rgb) -> bool {
    unit_bits(p.r) && unit_bits(p.g) && unit_bits(p.b)
}

/// Clamp of a finite channel encoding to `[0.0, 1.0]`: patterns with the
/// sign bit set encode negative values (or `-0.0`) and clamp to `0.0`;
/// patterns above `ONE_BITS` encode values above `1.0` and clamp to `1.0`;
/// the rest already encode values in `[0.0, 1.0]` and are kept as they are.
pub open spec fn clamp_unit_spec(c: u32) -> u32 {
    if c >= 0x8000_0000u32 {
        ZERO_BITS
    } else if c > ONE_BITS {
        ONE_BITS
    } else {
        c
    }
}

/// Guard and clamp one normalized channel, on its bit pattern alone:
/// a non-finite encoding (infinity or NaN, of either sign) is reported as
/// `ComputationAnomaly`; a finite one is clamped to `[0.0, 1.0]`.
pub fn normalize_channel(c: u32) -> (result: Result<u32, DenoiseError>)
    ensures
        result is Ok <==> finite_bits(c),
        result is Err ==> result == Err::<u32, DenoiseError>(DenoiseError::ComputationAnomaly),
        result matches Ok(v) ==> v == clamp_unit_spec(c) && unit_bits(v),
{
    if (c >> 23u32) & 0xFFu32 == 0xFFu32 {
        Err(DenoiseError::ComputationAnomaly)
    } else if c >= 0x8000_0000u32 {
        Ok(ZERO_BITS)
    } else if c > ONE_BITS {
        Ok(ONE_BITS)
    } else {
        Ok(c)
    }
}

} // verus!
