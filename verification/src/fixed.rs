//! Fixed-point scalars.
//!
//! Scripts hand the host fractional numbers (coordinates, color channels,
//! durations in seconds or milliseconds).  The library stores each as an
//! `i64` holding the value times [`SCALE`], and divides with truncation
//! toward zero.  A millisecond count at this scale is exactly a
//! microsecond count, so the same representation serves times.

use vstd::prelude::*;

verus! {

/// Fixed-point scale: one unit is `1/SCALE`.
pub const SCALE: i64 = 1000;

/// Largest magnitude accepted for a number arriving from a script.
pub const NUM_LIMIT: i64 = 0x4000_0000;

/// Truncating division (toward zero) by a positive divisor.
pub open spec fn trunc_div(a: int, d: int) -> int {
    if a >= 0 {
        a / d
    } else {
        -((-a) / d)
    }
}

/// True when `a` is small enough to arrive from a script.
pub open spec fn num_in_range(a: int) -> bool {
    -NUM_LIMIT <= a <= NUM_LIMIT
}

/// Divides by a small positive constant, truncating toward zero.
pub fn div_trunc(a: i64, d: u64) -> (r: i64)
    requires
        1 <= d,
        -0x4000_0000_0000_0000 <= a <= 0x4000_0000_0000_0000,
    ensures
        r == trunc_div(a as int, d as int),
{
    if a >= 0 {
        let q: u64 = (a as u64) / d;
        q as i64
    } else {
        let m: u64 = ((-a) as u64) / d;
        -(m as i64)
    }
}

} // verus!
