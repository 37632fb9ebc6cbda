//! Fixed-point arithmetic: an `i64` counts millionths of a unit. Results are
//! rounded toward zero and saturate at the ends of the `i64` range.

use vstd::prelude::*;

verus! {

/// How many raw steps make one unit.
pub const SCALE: i64 = 1_000_000;

/// The value nearest to `v` that an `i64` can hold.
pub open spec fn saturate(v: int) -> int {
    if v < i64::MIN {
        i64::MIN as int
    } else if v > i64::MAX {
        i64::MAX as int
    } else {
        v
    }
}

/// The quotient `n / d` rounded toward zero, for a positive `d`.
pub open spec fn div_toward_zero(n: int, d: int) -> int {
    if n >= 0 {
        n / d
    } else {
        -((-n) / d)
    }
}

/// The fixed-point sum of `a` and `b`.
pub open spec fn sum_spec(a: int, b: int) -> int {
    saturate(a + b)
}

/// The fixed-point difference of `a` and `b`.
pub open spec fn diff_spec(a: int, b: int) -> int {
    saturate(a - b)
}

/// The fixed-point product of `a` and `b`.
pub open spec fn product_spec(a: int, b: int) -> int {
    saturate(div_toward_zero(a * b, SCALE as int))
}

/// `v` held between `lo` and `hi`: `lo` where `v` is below it, else `hi`
/// where `v` is above it, else `v`.
pub open spec fn clamp_spec(v: int, lo: int, hi: int) -> int {
    if v < lo {
        lo
    } else if v > hi {
        hi
    } else {
        v
    }
}

/// Adds two fixed-point numbers.
pub fn sum(a: i64, b: i64) -> (r: i64)
    ensures
        r == sum_spec(a as int, b as int),
{
    let wide: i128 = a as i128 + b as i128;
    narrow(wide)
}

/// Subtracts `b` from `a`.
pub fn diff(a: i64, b: i64) -> (r: i64)
    ensures
        r == diff_spec(a as int, b as int),
{
    let wide: i128 = a as i128 - b as i128;
    narrow(wide)
}

/// Multiplies two fixed-point numbers.
pub fn product(a: i64, b: i64) -> (r: i64)
    ensures
        r == product_spec(a as int, b as int),
{
    proof {
        lemma_product_bounds(a as int, b as int);
    }
    let wide: i128 = (a as i128) * (b as i128);
    let quotient: i128 = if wide >= 0 {
        wide / (SCALE as i128)
    } else {
        -((-wide) / (SCALE as i128))
    };
    narrow(quotient)
}

/// Holds `v` between `lo` and `hi`.
pub fn clamp(v: i64, lo: i64, hi: i64) -> (r: i64)
    ensures
        r == clamp_spec(v as int, lo as int, hi as int),
{
    if v < lo {
        lo
    } else if v > hi {
        hi
    } else {
        v
    }
}

fn narrow(wide: i128) -> (r: i64)
    ensures
        r == saturate(wide as int),
{
    if wide < i64::MIN as i128 {
        i64::MIN
    } else if wide > i64::MAX as i128 {
        i64::MAX
    } else {
        wide as i64
    }
}

proof fn lemma_product_bounds(a: int, b: int)
    requires
        i64::MIN <= a <= i64::MAX,
        i64::MIN <= b <= i64::MAX,
    ensures
        -0x4000_0000_0000_0000_0000_0000_0000_0000 <= a * b
            <= 0x4000_0000_0000_0000_0000_0000_0000_0000,
{
    assert(-0x4000_0000_0000_0000_0000_0000_0000_0000 <= a * b
        <= 0x4000_0000_0000_0000_0000_0000_0000_0000) by (nonlinear_arith)
        requires
            -0x8000_0000_0000_0000 <= a <= 0x8000_0000_0000_0000,
            -0x8000_0000_0000_0000 <= b <= 0x8000_0000_0000_0000,
    ;
}

} // verus!
