//! Fixed-point metric values and the little arithmetic the pipeline needs.

use vstd::prelude::*;

verus! {

/// Metric values are fixed-point numbers counted in thousandths of a unit:
/// micrograms per cubic metre for the particulate metrics, index points for
/// the gas indices, degrees Celsius and relative-humidity percent for the
/// climate pair.  `30_000` thousandths is the reading `30.0`.
pub const MILLI_PER_UNIT: i64 = 1000;

/// Largest magnitude a metric value may carry.  Real sensor values are
/// far smaller; the bound only has to keep every sum and product in the
/// pipeline inside `i64`.
pub const VALUE_LIMIT: i64 = 1_000_000_000_000;

/// Largest window length a rolling filter may be built with.  Together
/// with [`VALUE_LIMIT`] it keeps a running sum inside `i64`.
pub const WINDOW_MAX: usize = 4096;

/// Whether a fixed-point value is inside the range the pipeline accepts.
pub open spec fn in_value_range(v: int) -> bool {
    -VALUE_LIMIT <= v <= VALUE_LIMIT
}

/// Division truncating toward zero, the rounding used when a sum of
/// fixed-point values is turned into a mean.
pub open spec fn div_trunc(a: int, b: int) -> int
    recommends
        b > 0,
{
    if a >= 0 {
        a / b
    } else {
        -((-a) / b)
    }
}

/// Truncating division on machine integers; the divisor is positive.
pub fn div_trunc_i64(a: i64, b: i64) -> (r: i64)
    requires
        b > 0,
        a > i64::MIN,
    ensures
        r == div_trunc(a as int, b as int),
{
    if a >= 0 {
        let q: u64 = (a as u64) / (b as u64);
        proof {
            assert(q <= a as u64) by (nonlinear_arith)
                requires
                    q == (a as u64) / (b as u64),
                    b as u64 >= 1,
            ;
        }
        q as i64
    } else {
        let m: u64 = (-a) as u64;
        let q: u64 = m / (b as u64);
        proof {
            assert(q <= m) by (nonlinear_arith)
                requires
                    q == m / (b as u64),
                    b as u64 >= 1,
            ;
        }
        -(q as i64)
    }
}

} // verus!
