//! Points of the plane and the directions of headings.

use vstd::prelude::*;
use crate::fixed::{difference, product, spec_difference, spec_product, spec_sum, sum};

verus! {

/// A point or a displacement of the plane, in fixed-point units.
#[derive(Clone, Copy, Debug, PartialEq, Eq, Structural)]
pub struct Vec2 {
    pub x: i64,
    pub y: i64,
}

/// The sine and the cosine of a heading, in millionths, as the caller
/// measured them.
#[derive(Clone, Copy, Debug, PartialEq, Eq, Structural)]
pub struct Direction {
    pub sin: i64,
    pub cos: i64,
}

impl Vec2 {
    /// The square of the distance between two points.
    pub open spec fn spec_distance_squared(self, other: Vec2) -> int {
        (self.x - other.x) * (self.x - other.x) + (self.y - other.y) * (self.y - other.y)
    }

    /// Whether the squared distance to `other` is below the square of
    /// `reach`.
    pub open spec fn spec_within(self, other: Vec2, reach: int) -> bool {
        self.spec_distance_squared(other) < reach * reach
    }

    /// Whether the distance to `other` is below `reach`: no point is closer
    /// than a reach of zero or less.
    pub open spec fn spec_closer_than(self, other: Vec2, reach: int) -> bool {
        reach > 0 && self.spec_within(other, reach)
    }

    /// This point moved by `step` along `(across, along)`, each part a
    /// saturating fixed-point product.
    pub open spec fn spec_moved(self, step: int, across: int, along: int) -> Vec2 {
        Vec2 {
            x: spec_sum(self.x as int, spec_product(step, across) as int),
            y: spec_sum(self.y as int, spec_product(step, along) as int),
        }
    }

    /// This point moved back by `step` along `(across, along)`.
    pub open spec fn spec_moved_back(self, step: int, across: int, along: int) -> Vec2 {
        Vec2 {
            x: spec_difference(self.x as int, spec_product(step, across) as int),
            y: spec_difference(self.y as int, spec_product(step, along) as int),
        }
    }

    pub fn new(x: i64, y: i64) -> (r: Vec2)
        ensures
            r == (Vec2 { x, y }),
    {
        Vec2 { x, y }
    }

    /// Tests the squared distance to `other` against the square of `reach`.
    pub fn within(self, other: Vec2, reach: i64) -> (r: bool)
        ensures
            r == self.spec_within(other, reach as int),
    {
        let dx: i128 = self.x as i128 - other.x as i128;
        let dy: i128 = self.y as i128 - other.y as i128;
        let far_x: i128 = if dx < 0 { -dx } else { dx };
        let far_y: i128 = if dy < 0 { -dy } else { dy };
        let far: i128 = if reach < 0 { -(reach as i128) } else { reach as i128 };
        proof {
            lemma_square_of_magnitude(dx as int, far_x as int);
            lemma_square_of_magnitude(dy as int, far_y as int);
            lemma_square_of_magnitude(reach as int, far as int);
        }
        if far_x >= far {
            proof {
                lemma_square_monotone(far as int, far_x as int);
                lemma_square_monotone(0, far_y as int);
            }
            false
        } else if far_y >= far {
            proof {
                lemma_square_monotone(far as int, far_y as int);
                lemma_square_monotone(0, far_x as int);
            }
            false
        } else {
            proof {
                lemma_square_monotone(far_x as int, 0x7fff_ffff_ffff_ffff);
                lemma_square_monotone(far_y as int, 0x7fff_ffff_ffff_ffff);
                lemma_square_monotone(far as int, 0x8000_0000_0000_0000);
            }
            far_x * far_x + far_y * far_y < far * far
        }
    }

    /// Tests the distance to `other` against `reach`.
    pub fn closer_than(self, other: Vec2, reach: i64) -> (r: bool)
        ensures
            r == self.spec_closer_than(other, reach as int),
    {
        reach > 0 && self.within(other, reach)
    }

    /// Moves the point by `step` along `(across, along)`.
    pub fn moved(self, step: i64, across: i64, along: i64) -> (r: Vec2)
        ensures
            r == self.spec_moved(step as int, across as int, along as int),
    {
        Vec2 { x: sum(self.x, product(step, across)), y: sum(self.y, product(step, along)) }
    }

    /// Moves the point back by `step` along `(across, along)`.
    pub fn moved_back(self, step: i64, across: i64, along: i64) -> (r: Vec2)
        ensures
            r == self.spec_moved_back(step as int, across as int, along as int),
    {
        Vec2 {
            x: difference(self.x, product(step, across)),
            y: difference(self.y, product(step, along)),
        }
    }
}

/// A number and its magnitude have the same square.
pub(crate) proof fn lemma_square_of_magnitude(a: int, m: int)
    requires
        m == a || m == -a,
    ensures
        m * m == a * a,
{
    assert((-a) * (-a) == a * a) by (nonlinear_arith);
}

/// Squaring keeps the order of numbers that are not negative.
pub(crate) proof fn lemma_square_monotone(a: int, b: int)
    requires
        0 <= a <= b,
    ensures
        a * a <= b * b,
        0 <= a * a,
{
    assert(a * a <= b * b && 0 <= a * a) by (nonlinear_arith)
        requires
            0 <= a <= b,
    ;
}

/// A point is within every nonzero reach of itself.
pub proof fn lemma_within_itself(p: Vec2, reach: int)
    requires
        reach != 0,
    ensures
        p.spec_within(p, reach),
{
    assert(reach * reach > 0) by (nonlinear_arith)
        requires
            reach != 0,
    ;
}

} // verus!
