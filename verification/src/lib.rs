//! Control core of an ionization-gauge controller.
//!
//! The library regulates a high-voltage anode supply and a cathode
//! emission-current / filament-voltage pair in closed loop, converts the
//! ion-collector current of an auto-ranging electrometer front end into a
//! pressure-proportional reading, and coordinates recovery from the sticky
//! hardware protection latch.
//!
//! All physical quantities are carried as 64-bit signed integers in fixed
//! nano-units (nanovolts, nanoamperes), controller gains in thousandths;
//! see the `fixed` module. ADC samples and PWM duty cycles are the raw
//! integer values exchanged with the hardware layer, which lives outside
//! this crate.

pub mod fixed;
pub mod pid;
pub mod range;
pub mod loop_anode;
pub mod electrometer;
pub mod loop_cathode;
pub mod latch;
pub mod http;
pub mod config;

use vstd::prelude::*;

verus! {

/// Truncating division of `x` by a positive divisor `d`, rounding
/// toward zero.
pub open spec fn tdiv(x: int, d: int) -> int {
    if x >= 0 {
        x / d
    } else {
        -((-x) / d)
    }
}

/// Clamp `x` into the closed interval `[lo, hi]` (the interval is assumed
/// well formed, `lo <= hi`).
pub open spec fn clamp(x: int, lo: int, hi: int) -> int {
    if x < lo {
        lo
    } else if x > hi {
        hi
    } else {
        x
    }
}

} // verus!
