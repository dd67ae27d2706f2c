//! Fixed-point helpers: arithmetic that stays inside `i64` by saturating.
use vstd::prelude::*;

verus! {

/// `v` held to the range of `i64`.
pub open spec fn clamp64(v: int) -> int {
    if v > i64::MAX {
        i64::MAX as int
    } else if v < i64::MIN {
        i64::MIN as int
    } else {
        v
    }
}

/// `v` held to the range of `u32`.
pub open spec fn clamp_u32(v: int) -> int {
    if v > u32::MAX {
        u32::MAX as int
    } else {
        v
    }
}

/// Narrows a wide intermediate result to `i64`, saturating at either end.
pub fn saturate(v: i128) -> (r: i64)
    ensures
        r == clamp64(v as int),
{
    if v > i64::MAX as i128 {
        i64::MAX
    } else if v < i64::MIN as i128 {
        i64::MIN
    } else {
        v as i64
    }
}

/// `a + b`, saturating.
pub fn add_sat(a: i64, b: i64) -> (r: i64)
    ensures
        r == clamp64(a + b),
{
    saturate(a as i128 + b as i128)
}

/// `a - b`, saturating.
pub fn sub_sat(a: i64, b: i64) -> (r: i64)
    ensures
        r == clamp64(a - b),
{
    saturate(a as i128 - b as i128)
}

/// The distance covered in `elapsed_ms` milliseconds at `speed` thousandths
/// per second, rounded towards zero.
pub open spec fn travel(speed: i64, elapsed_ms: u32) -> int {
    (speed as int * elapsed_ms as int) / 1_000int
}

/// Computes `travel` for a speed that is not negative.
pub fn travel_exec(speed: i64, elapsed_ms: u32) -> (r: i128)
    requires
        speed >= 0,
    ensures
        r == travel(speed, elapsed_ms),
        0 <= r <= i64::MAX as int * u32::MAX as int,
{
    proof {
        assert(0 <= speed as int * elapsed_ms as int <= i64::MAX as int * u32::MAX as int)
            by (nonlinear_arith)
            requires
                0 <= speed <= i64::MAX,
                0 <= elapsed_ms <= u32::MAX,
        ;
    }
    let p: i128 = speed as i128 * elapsed_ms as i128;
    p / 1_000
}

} // verus!
