//! Angles, counted in millionths of a degree.
//!
//! A full turn is a whole number in this unit, so bringing an angle back into
//! one turn is exact.

use vstd::prelude::*;
use vstd::arithmetic::div_mod::lemma_mod_multiples_vanish;
use crate::fixed::{difference, narrow, spec_difference};
use crate::geometry::Vec2;

verus! {

/// What stands in for a coordinate difference of zero where a slope is
/// taken: the least length there is, a millionth of a unit.
pub const EPSILON: i64 = 1;

/// One degree.
pub const DEGREE: i64 = 1_000_000;

/// A full turn, 360 degrees.
pub const FULL_TURN: i64 = 360_000_000;

/// Half a turn, 180 degrees.
pub const HALF_TURN: i64 = 180_000_000;

/// A quarter of a turn, 90 degrees.
pub const QUARTER_TURN: i64 = 90_000_000;

/// The angle in `[-180, 180)` degrees that differs from `a` by whole turns.
pub open spec fn spec_normalize(a: int) -> int {
    (a + HALF_TURN) % (FULL_TURN as int) - HALF_TURN
}

/// The side that an angle `a` lies on: 1 for an angle that is not
/// negative, -1 for one that is. An angle of zero has a side, the positive
/// one.
pub open spec fn spec_side(a: int) -> int {
    if a >= 0 {
        1
    } else {
        -1
    }
}

/// A coordinate difference made fit to divide by: a zero difference counts
/// as `EPSILON`.
pub open spec fn spec_offset(delta: i64) -> i64 {
    if delta == 0 {
        EPSILON
    } else {
        delta
    }
}

/// The offset from `to` to `from` as the bearing formula takes it: neither
/// part is zero.
pub open spec fn spec_offsets(from: Vec2, to: Vec2) -> Vec2 {
    Vec2 {
        x: spec_offset(spec_difference(from.x as int, to.x as int)),
        y: spec_offset(spec_difference(from.y as int, to.y as int)),
    }
}

/// The bearing along an offset whose horizontal part is `dx`, given the
/// principal arctangent of its slope: the arctangent itself on the right
/// half plane, and half a turn less on the left.
pub open spec fn spec_bearing(dx: int, principal: i64) -> i64 {
    if dx >= 0 {
        principal
    } else {
        spec_difference(principal as int, HALF_TURN as int)
    }
}

/// The angle from a bearing to a heading, in `[-180, 180)` degrees.
pub open spec fn spec_relative(heading: int, bearing: int) -> int {
    spec_normalize(heading - bearing)
}

/// Normalizes a wide angle.
fn normalize_wide(a: i128) -> (r: i64)
    ensures
        r == spec_normalize(a as int),
{
    let full: i128 = FULL_TURN as i128;
    let half: i128 = HALF_TURN as i128;
    let rest: i128 = a % full;
    if rest >= half {
        narrow(rest - full)
    } else if rest < -half {
        narrow(rest + full)
    } else {
        narrow(rest)
    }
}

/// Brings an angle into `[-180, 180)` degrees.
pub fn normalize(a: i64) -> (r: i64)
    ensures
        r == spec_normalize(a as int),
        -HALF_TURN <= r < HALF_TURN,
{
    normalize_wide(a as i128)
}

/// The side of the difference `a - b`: 1 where `a` is not below `b`, and
/// -1 where it is.
pub fn side(a: i64, b: i64) -> (r: i64)
    ensures
        r == spec_side(a - b),
        r == 1 || r == -1,
{
    if a >= b {
        1
    } else {
        -1
    }
}

/// The difference of two coordinates as the bearing formula takes it: never
/// zero.
pub fn offset(from: i64, to: i64) -> (r: i64)
    ensures
        r == spec_offset(spec_difference(from as int, to as int)),
        r != 0,
{
    let delta: i64 = difference(from, to);
    if delta == 0 {
        EPSILON
    } else {
        delta
    }
}

/// The offset from `to` to `from`, with a zero part replaced by `EPSILON`.
pub fn offsets(from: Vec2, to: Vec2) -> (r: Vec2)
    ensures
        r == spec_offsets(from, to),
        r.x != 0,
        r.y != 0,
{
    Vec2 { x: offset(from.x, to.x), y: offset(from.y, to.y) }
}

/// The bearing along an offset with horizontal part `dx`, from the principal
/// arctangent of its slope.
pub fn bearing(dx: i64, principal: i64) -> (r: i64)
    ensures
        r == spec_bearing(dx as int, principal),
{
    if dx >= 0 {
        principal
    } else {
        difference(principal, HALF_TURN)
    }
}

/// The angle from `bearing` to `heading`, normalized.
pub fn relative(heading: i64, bearing: i64) -> (r: i64)
    ensures
        r == spec_relative(heading as int, bearing as int),
        -HALF_TURN <= r < HALF_TURN,
{
    normalize_wide(heading as i128 - bearing as i128)
}

/// A normalized angle lies in `[-180, 180)` degrees and differs from the
/// angle it came from by a whole number of turns.
pub proof fn lemma_normalize_range(a: int)
    ensures
        -HALF_TURN <= spec_normalize(a) < HALF_TURN,
        (a - spec_normalize(a)) % (FULL_TURN as int) == 0,
{
    let m = FULL_TURN as int;
    let q = (a + HALF_TURN) / m;
    assert(a + HALF_TURN == m * q + (a + HALF_TURN) % m);
    assert(a - spec_normalize(a) == m * q);
    lemma_mod_multiples_vanish(q, 0, m);
}

/// Whole turns do not change the normalized angle.
pub proof fn lemma_normalize_periodic(a: int, k: int)
    ensures
        spec_normalize(a + k * FULL_TURN) == spec_normalize(a),
{
    let m = FULL_TURN as int;
    assert(a + k * FULL_TURN + HALF_TURN == m * k + (a + HALF_TURN)) by (nonlinear_arith)
        requires
            m == FULL_TURN,
    ;
    lemma_mod_multiples_vanish(k, a + HALF_TURN, m);
}

/// An angle that already lies in `[-180, 180)` degrees is its own normal
/// form, so normalizing twice is normalizing once.
pub proof fn lemma_normalize_fixed(a: int)
    ensures
        -HALF_TURN <= a < HALF_TURN ==> spec_normalize(a) == a,
        spec_normalize(spec_normalize(a)) == spec_normalize(a),
{
}

} // verus!
