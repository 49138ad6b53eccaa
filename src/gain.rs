//! Gain values in fixed point: `GAIN_UNIT` parts stand for a gain of 1.0.
use vstd::prelude::*;

verus! {

/// Number of fixed-point parts that make a gain of exactly 1.0.
pub const GAIN_UNIT: i64 = 1_000_000;

/// The clamped value of a raw gain `g`, given in parts of `GAIN_UNIT`.
pub open spec fn clamped(g: int) -> int {
    if g < 0 {
        0
    } else if g > GAIN_UNIT {
        GAIN_UNIT as int
    } else {
        g
    }
}

/// Clamps a raw gain into `[0, GAIN_UNIT]`; out-of-range values are pulled
/// to the nearest rail and never rejected.
pub fn clamp_gain(g: i64) -> (r: u32)
    ensures
        r as int == clamped(g as int),
        0 <= r <= GAIN_UNIT,
{
    if g < 0 {
        0
    } else if g > GAIN_UNIT {
        GAIN_UNIT as u32
    } else {
        g as u32
    }
}

} // verus!
