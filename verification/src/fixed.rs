//! Fixed-point arithmetic that saturates at the ends of the 64-bit range.
//!
//! A quantity `q` of the game world is stored as the integer `q * UNIT`, so
//! that `0.25` is `250` and `-16.0` is `-16_000`. Sums and products are
//! formed exactly and brought back into the range of `i64` by [`saturate`];
//! quotients round toward negative infinity.

use vstd::prelude::*;

verus! {

/// Stored steps per unit of the game world.
pub const UNIT: i64 = 1_000;

/// Nanoseconds in one second.
pub const NANOS_PER_SECOND: i64 = 1_000_000_000;

/// Sums of a few quantities no greater than this one stay exact.
pub const HORIZON: i64 = 1_000_000_000_000_000;

/// `v` lies within the horizon.
pub open spec fn in_sight(v: int) -> bool {
    -HORIZON <= v <= HORIZON
}

/// The nearest value to `x` that an `i64` holds.
pub open spec fn saturate(x: int) -> int {
    if x < i64::MIN {
        i64::MIN as int
    } else if x > i64::MAX {
        i64::MAX as int
    } else {
        x
    }
}

/// The saturating sum of two stored quantities.
pub open spec fn sum(a: int, b: int) -> int {
    saturate(a + b)
}

/// The saturating difference of two stored quantities.
pub open spec fn difference(a: int, b: int) -> int {
    saturate(a - b)
}

/// The saturating product of two stored quantities, itself a stored quantity.
pub open spec fn product(a: int, b: int) -> int {
    saturate((a * b) / (UNIT as int))
}

/// `v` multiplied by the inverse of a time span of `delta_ns` nanoseconds,
/// the span taken in seconds: `v * (1 / delta)`.
pub open spec fn per_second(v: int, delta_ns: int) -> int {
    saturate((v * NANOS_PER_SECOND) / delta_ns)
}

/// `value` held between `low` and `high`; `low` where the two cross.
pub open spec fn clamped(value: int, low: int, high: int) -> int {
    if value > low {
        if value < high {
            value
        } else {
            high
        }
    } else {
        low
    }
}

/// Floor division by a positive number moves a value toward zero, never past it.
pub proof fn lemma_floor_div_bounds(x: int, d: int)
    by (nonlinear_arith)
    requires
        d >= 1,
    ensures
        x >= 0 ==> 0 <= x / d <= x,
        x < 0 ==> x <= x / d < 0,
{
}

/// A floor quotient exceeds `v` exactly when the dividend reaches `(v + 1) * d`.
pub proof fn lemma_floor_div_exceeds(x: int, d: int, v: int)
    by (nonlinear_arith)
    requires
        d >= 1,
    ensures
        (x / d > v) <==> (x >= (v + 1) * d),
{
}

/// Brings a wide number into the range of `i64`.
pub fn narrow(x: i128) -> (r: i64)
    ensures
        r == saturate(x as int),
{
    if x < -9_223_372_036_854_775_808i128 {
        i64::MIN
    } else if x > 9_223_372_036_854_775_807i128 {
        i64::MAX
    } else {
        x as i64
    }
}

/// The saturating sum.
pub fn plus(a: i64, b: i64) -> (r: i64)
    ensures
        r == sum(a as int, b as int),
{
    narrow(a as i128 + b as i128)
}

/// The saturating difference.
pub fn minus(a: i64, b: i64) -> (r: i64)
    ensures
        r == difference(a as int, b as int),
{
    narrow(a as i128 - b as i128)
}

/// The floor of `x / d` for a positive `d`.
pub fn floor_div(x: i128, d: i128) -> (q: i128)
    requires
        d >= 1,
    ensures
        q == (x as int) / (d as int),
{
    proof {
        lemma_floor_div_bounds(x as int, d as int);
    }
    match x.checked_div_euclid(d) {
        Some(q) => q,
        None => 0,
    }
}

/// The saturating fixed-point product.
pub fn times(a: i64, b: i64) -> (r: i64)
    ensures
        r == product(a as int, b as int),
{
    let wide: i128 = wide_product(a, b);
    narrow(floor_div(wide, 1_000))
}

/// The exact product of two 64-bit numbers.
pub fn wide_product(a: i64, b: i64) -> (r: i128)
    ensures
        r == (a as int) * (b as int),
{
    proof {
        lemma_product_fits(a as int, b as int);
    }
    (a as i128) * (b as i128)
}

/// The product of two 64-bit numbers lies well inside the 128-bit range.
pub proof fn lemma_product_fits(a: int, b: int)
    by (nonlinear_arith)
    requires
        -0x8000_0000_0000_0000 <= a <= 0x7fff_ffff_ffff_ffff,
        -0x8000_0000_0000_0000 <= b <= 0x7fff_ffff_ffff_ffff,
    ensures
        -0x4000_0000_0000_0000_0000_0000_0000_0000 <= a * b
            <= 0x4000_0000_0000_0000_0000_0000_0000_0000,
{
}

/// `v` multiplied by the inverse of a time span of `delta_ns` nanoseconds.
pub fn scale_by_inverse(v: i64, delta_ns: u64) -> (r: i64)
    requires
        delta_ns > 0,
    ensures
        r == per_second(v as int, delta_ns as int),
{
    let wide: i128 = wide_product(v, 1_000_000_000);
    narrow(floor_div(wide, delta_ns as i128))
}

/// `value` held between `low` and `high`.
pub fn clamp(value: i64, low: i64, high: i64) -> (r: i64)
    ensures
        r == clamped(value as int, low as int, high as int),
{
    if value > low {
        if value < high {
            value
        } else {
            high
        }
    } else {
        low
    }
}

} // verus!
