//! Fixed-point helpers shared by the control loops.
//!
//! Unit conventions: voltages are held in nanovolts and currents in
//! nanoamperes (`i64`). Controller gains are held in thousandths, so a
//! product `gain * value` is in units of one thousandth of a nano-unit
//! (pico-units); a final division by `NANO_PER_UNIT` turns a clamped
//! pico-unit output into the raw integer duty cycle handed to the PWM.

use vstd::prelude::*;

verus! {

/// Largest magnitude any physical value (nano-units) handled by the loops
/// may take. Inputs, targets and integral bounds are kept within it so
/// that every product and sum of the controller arithmetic fits in an
/// `i64`.
pub const VAL_LIMIT: i64 = 1_000_000_000_000;

/// Largest magnitude of a controller gain (thousandths).
pub const GAIN_LIMIT: i64 = 1_000_000;

/// Highest raw value the 12-bit ADC can deliver, plus one.
pub const ADC_SPAN: u16 = 4096;

/// One raw output unit expressed in pico-units: a gain in thousandths
/// times a value in nano-units. Dividing a clamped controller output by
/// it yields the raw duty cycle for the PWM.
pub const PICO_PER_UNIT: i64 = 1_000_000_000_000;

/// Absolute value of an `i64` (the minimum value, whose negation would
/// not fit, is excluded).
pub fn abs_i64(x: i64) -> (r: i64)
    requires
        x != i64::MIN,
    ensures
        r == if x >= 0 { x as int } else { -(x as int) },
{
    if x >= 0 {
        x
    } else {
        -x
    }
}

/// Truncating division by a positive divisor, rounding toward zero.
pub fn div_trunc(x: i64, d: i64) -> (r: i64)
    requires
        0 < d,
        x != i64::MIN,
    ensures
        r == crate::tdiv(x as int, d as int),
{
    if x >= 0 {
        let q: u64 = (x as u64) / (d as u64);
        q as i64
    } else {
        let m: i64 = -x;
        let q: u64 = (m as u64) / (d as u64);
        assert(q <= m);
        -(q as i64)
    }
}

/// Clamp `x` into `[lo, hi]`.
pub fn clamp_i64(x: i64, lo: i64, hi: i64) -> (r: i64)
    requires
        lo <= hi,
    ensures
        r == crate::clamp(x as int, lo as int, hi as int),
{
    if x < lo {
        lo
    } else if x > hi {
        hi
    } else {
        x
    }
}

} // verus!
