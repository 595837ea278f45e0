//! Fixed-point arithmetic.
//!
//! Every quantity of the simulation is a signed 64-bit integer counted in
//! millionths: a length of `1_500_000` is one and a half units, a duration of
//! `16_667` is a sixtieth of a second, a sine of `-1_000_000` is minus one.
//! Sums and products saturate at the ends of the 64-bit range, so no
//! operation here has a precondition.

use vstd::prelude::*;

verus! {

/// The number one in the fixed-point scale.
pub const ONE: i64 = 1_000_000;

/// Minus one in the fixed-point scale.
pub const MINUS_ONE: i64 = -1_000_000;

/// One half in the fixed-point scale.
pub const HALF: i64 = 500_000;

/// `x` brought into the range of a signed 64-bit integer.
pub open spec fn clamp64(x: int) -> int {
    if x < i64::MIN {
        i64::MIN as int
    } else if x > i64::MAX {
        i64::MAX as int
    } else {
        x
    }
}

/// The quotient of `x` by a positive `d`, rounded toward zero.
pub open spec fn trunc_div(x: int, d: int) -> int {
    if x >= 0 {
        x / d
    } else {
        -((-x) / d)
    }
}

/// The saturating sum of two fixed-point numbers.
pub open spec fn spec_sum(a: int, b: int) -> i64 {
    clamp64(a + b) as i64
}

/// The saturating difference of two fixed-point numbers.
pub open spec fn spec_difference(a: int, b: int) -> i64 {
    clamp64(a - b) as i64
}

/// The saturating product of two fixed-point numbers: the exact product of
/// the two values, rounded toward zero to the next millionth.
pub open spec fn spec_product(a: int, b: int) -> i64 {
    clamp64(trunc_div(a * b, ONE as int)) as i64
}

/// The whole part of a fixed-point number, rounded toward zero and
/// saturating at the ends of the 32-bit range.
pub open spec fn spec_whole(a: int) -> i32 {
    let q = trunc_div(a, ONE as int);
    if q < i32::MIN {
        i32::MIN
    } else if q > i32::MAX {
        i32::MAX
    } else {
        q as i32
    }
}

/// Brings a wide intermediate result back into 64 bits.
pub fn narrow(x: i128) -> (r: i64)
    ensures
        r == clamp64(x as int),
{
    if x > i64::MAX as i128 {
        i64::MAX
    } else if x < i64::MIN as i128 {
        i64::MIN
    } else {
        x as i64
    }
}

/// `a + b`, saturating.
pub fn sum(a: i64, b: i64) -> (r: i64)
    ensures
        r == spec_sum(a as int, b as int),
{
    narrow(a as i128 + b as i128)
}

/// `a - b`, saturating.
pub fn difference(a: i64, b: i64) -> (r: i64)
    ensures
        r == spec_difference(a as int, b as int),
{
    narrow(a as i128 - b as i128)
}

/// `a * b` in the fixed-point scale, rounded toward zero and saturating.
pub fn product(a: i64, b: i64) -> (r: i64)
    ensures
        r == spec_product(a as int, b as int),
{
    assert(-0x4000_0000_0000_0000_0000_0000_0000_0000 <= (a as int) * (b as int)
        <= 0x4000_0000_0000_0000_0000_0000_0000_0000) by (nonlinear_arith)
        requires
            -0x8000_0000_0000_0000 <= a < 0x8000_0000_0000_0000,
            -0x8000_0000_0000_0000 <= b < 0x8000_0000_0000_0000,
    ;
    let wide: i128 = (a as i128) * (b as i128);
    narrow(wide / (ONE as i128))
}

/// The whole part of `a`, as the 32-bit integer that a position is reported
/// with.
pub fn whole(a: i64) -> (r: i32)
    ensures
        r == spec_whole(a as int),
{
    let q: i64 = a / ONE;
    if q > i32::MAX as i64 {
        i32::MAX
    } else if q < i32::MIN as i64 {
        i32::MIN
    } else {
        q as i32
    }
}

} // verus!
