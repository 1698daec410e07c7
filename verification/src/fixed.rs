//! Fixed-point units shared by the whole crate.

use vstd::prelude::*;

verus! {

/// The amplitude 1.0: samples are counted in millionths of full scale.
pub const SAMPLE_ONE: i32 = 1_000_000;

/// The factor 1.0: scales and step multipliers are counted in thousandths.
pub const SCALE_ONE: u32 = 1_000;

/// The coordinate 1.0: a sample times a scale, so billionths.
pub const COORD_ONE: i64 = 1_000_000_000;

/// `num / den` rounded toward zero, for a positive `den`.
pub open spec fn div_toward_zero(num: int, den: int) -> int {
    if num >= 0 {
        num / den
    } else {
        -((-num) / den)
    }
}

/// `x` limited to the closed interval `[lo, hi]`.
pub open spec fn clamp_int(x: int, lo: int, hi: int) -> int {
    if x < lo {
        lo
    } else if x > hi {
        hi
    } else {
        x
    }
}

/// `value / full_scale` as an amplitude in millionths, rounded toward zero
/// and limited to what an `i32` holds.
pub open spec fn normalized(value: int, full_scale: int) -> int {
    clamp_int(div_toward_zero(value * SAMPLE_ONE, full_scale), i32::MIN as int, i32::MAX as int)
}

/// Divides a decoded value by the count that stands for full scale.
pub fn normalize(value: i32, full_scale: u32) -> (sample: i32)
    requires
        full_scale > 0,
    ensures
        sample == normalized(value as int, full_scale as int),
{
    let wide: i64 = (value as i64) * 1_000_000;
    let den: i64 = full_scale as i64;
    let quotient: i64 = if wide >= 0 {
        wide / den
    } else {
        -((-wide) / den)
    };
    if quotient < i32::MIN as i64 {
        i32::MIN
    } else if quotient > i32::MAX as i64 {
        i32::MAX
    } else {
        quotient as i32
    }
}

} // verus!
