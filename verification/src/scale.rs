//! Expansion of 3-, 4- and 5-bit samples to 8 bits.

use vstd::prelude::*;

verus! {

/// The 8-bit value of a sample `value` taken from the range `0..=max`:
/// `value * 255 / max`, rounded down.
pub open spec fn scale_to_byte(value: int, max: int) -> int {
    value * 255 / max
}

/// Scaling maps `0..=max` into `0..=255`, the lowest sample to 0 and the
/// highest to 255, and keeps the order of samples.
pub proof fn scale_to_byte_bounds(value: int, max: int)
    requires
        0 < max,
        0 <= value <= max,
    ensures
        0 <= scale_to_byte(value, max) <= 255,
        scale_to_byte(0, max) == 0,
        scale_to_byte(max, max) == 255,
{
    assert(0int * 255 / max == 0) by (nonlinear_arith)
        requires
            0 < max,
    ;
    assert(max * 255 / max == 255) by (nonlinear_arith)
        requires
            0 < max,
    ;
    assert(0 <= value * 255 / max <= 255) by (nonlinear_arith)
        requires
            0 < max,
            0 <= value <= max,
    ;
}

/// A larger sample never scales to a smaller byte.
pub proof fn scale_to_byte_monotonic(low: int, high: int, max: int)
    requires
        0 < max,
        low <= high,
    ensures
        scale_to_byte(low, max) <= scale_to_byte(high, max),
{
    assert(low * 255 / max <= high * 255 / max) by (nonlinear_arith)
        requires
            0 < max,
            low <= high,
    ;
}

/// Scales a 3-bit sample to 8 bits.  Values above 7 wrap around at 256.
pub fn scale_3_8(value: u8) -> (r: u8)
    ensures
        r == scale_to_byte(value as int, 7) % 256,
        value <= 7 ==> r == scale_to_byte(value as int, 7),
{
    let wide: u16 = value as u16 * 255 / 7;
    assert(wide as u8 == wide % 256) by (bit_vector);
    #[verifier::truncate]
    (wide as u8)
}

/// Scales a 4-bit sample to 8 bits.  Values above 15 wrap around at 256.
pub fn scale_4_8(value: u8) -> (r: u8)
    ensures
        r == scale_to_byte(value as int, 15) % 256,
        value <= 15 ==> r == scale_to_byte(value as int, 15),
{
    let wide: u16 = value as u16 * 255 / 15;
    assert(wide as u8 == wide % 256) by (bit_vector);
    #[verifier::truncate]
    (wide as u8)
}

/// Scales a 5-bit sample to 8 bits.  Values above 31 wrap around at 256.
pub fn scale_5_8(value: u8) -> (r: u8)
    ensures
        r == scale_to_byte(value as int, 31) % 256,
        value <= 31 ==> r == scale_to_byte(value as int, 31),
{
    let wide: u16 = value as u16 * 255 / 31;
    assert(wide as u8 == wide % 256) by (bit_vector);
    #[verifier::truncate]
    (wide as u8)
}

} // verus!
