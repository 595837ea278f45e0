//! The projectiles: they fly straight along the heading they were fired
//! with, and die when they leave the screen.

use vstd::prelude::*;
use crate::fixed::{
    difference, product, spec_difference, spec_product, spec_sum, sum, HALF, ONE,
};
use crate::geometry::{Direction, Vec2};

verus! {

/// A projectile in flight.
#[derive(Clone, Copy, Debug, PartialEq, Eq, Structural)]
pub struct Projectile {
    /// The heading, fixed when the projectile is fired.
    pub rotation: i64,
    /// The sine and cosine of the heading.
    pub direction: Direction,
    /// Where the projectile was fired.
    pub start_position: Vec2,
    pub position: Vec2,
    /// The size of the sprite.
    pub size: Vec2,
    /// Units flown per second.
    pub speed: i64,
    pub alive: bool,
}

impl Projectile {
    /// The distance flown in `dt`.
    pub open spec fn spec_step(self, dt: int) -> i64 {
        spec_product(dt, self.speed as int)
    }

    /// The projectile after it has flown for `dt`. A heading of zero
    /// points up the screen: the projectile moves by the sine of its
    /// heading to the right and by the cosine upward.
    pub open spec fn spec_update_position(self, dt: int) -> Projectile {
        Projectile {
            position: Vec2 {
                x: spec_sum(
                    self.position.x as int,
                    spec_product(self.spec_step(dt) as int, self.direction.sin as int) as int,
                ),
                y: spec_difference(
                    self.position.y as int,
                    spec_product(self.spec_step(dt) as int, self.direction.cos as int) as int,
                ),
            },
            ..self
        }
    }

    /// Whether any part of the sprite lies on a screen of the size
    /// `screen`.
    pub open spec fn spec_is_within_screen_bounds(self, screen: Vec2) -> bool {
        let half_width = spec_product(self.size.x as int, HALF as int);
        let half_height = spec_product(self.size.y as int, HALF as int);
        &&& self.position.x + half_width >= 0
        &&& self.position.x - half_width <= screen.x
        &&& self.position.y + half_height >= 0
        &&& self.position.y - half_height <= screen.y
    }

    /// The projectile after `update`: flown on, and dead once it has left
    /// the screen.
    pub open spec fn spec_update(self, dt: int, screen: Vec2) -> Projectile {
        let flown = self.spec_update_position(dt);
        Projectile { alive: self.alive && flown.spec_is_within_screen_bounds(screen), ..flown }
    }

    /// Whether the projectile is less than `range` from where it was
    /// fired, by the squares.
    pub open spec fn spec_in_range(self, range: int) -> bool {
        self.start_position.spec_within(self.position, range)
    }

    /// Whether the projectile stays in the scene: it is alive and in
    /// range.
    pub open spec fn spec_kept(self, range: int) -> bool {
        self.spec_in_range(range) && self.alive
    }

    /// A live projectile at `position`, for a sprite of the size `extent`.
    pub open spec fn spec_new(extent: Vec2, rotation: i64, direction: Direction, position: Vec2, speed: i64) -> Projectile {
        Projectile {
            rotation,
            direction,
            start_position: position,
            position,
            size: extent,
            speed,
            alive: true,
        }
    }

    /// The projectile after it has struck something: dead.
    pub open spec fn spec_spent(self) -> Projectile {
        Projectile { alive: false, ..self }
    }

    /// A live projectile at `position`, for a sprite of the size `extent`.
    /// `direction` holds the sine and cosine of `rotation`.
    pub fn new(extent: Vec2, rotation: i64, direction: Direction, position: Vec2, speed: i64) -> (p:
        Projectile)
        ensures
            p == Projectile::spec_new(extent, rotation, direction, position, speed),
    {
        Projectile {
            rotation,
            direction,
            start_position: position,
            position,
            size: extent,
            speed,
            alive: true,
        }
    }

    /// Flies on for `dt`.
    pub fn update_position(&mut self, dt: u32)
        ensures
            *final(self) == old(self).spec_update_position(dt as int),
    {
        let step: i64 = product(dt as i64, self.speed);
        self.position = Vec2 {
            x: sum(self.position.x, product(step, self.direction.sin)),
            y: difference(self.position.y, product(step, self.direction.cos)),
        };
    }

    /// Whether any part of the sprite lies on a screen of the size
    /// `screen`.
    pub fn is_within_screen_bounds(&self, screen: Vec2) -> (r: bool)
        ensures
            r == self.spec_is_within_screen_bounds(screen),
    {
        let half_width: i128 = product(self.size.x, HALF) as i128;
        let half_height: i128 = product(self.size.y, HALF) as i128;
        let x: i128 = self.position.x as i128;
        let y: i128 = self.position.y as i128;
        x + half_width >= 0 && x - half_width <= screen.x as i128 && y + half_height >= 0 && y
            - half_height <= screen.y as i128
    }

    /// Flies on for `dt` and dies off the screen.
    pub fn update(&mut self, dt: u32, screen: Vec2)
        ensures
            *final(self) == old(self).spec_update(dt as int, screen),
    {
        self.update_position(dt);
        self.alive = self.alive && self.is_within_screen_bounds(screen);
    }

    /// Whether the projectile is less than `range` from where it was
    /// fired.
    pub fn in_range(&self, range: i64) -> (r: bool)
        ensures
            r == self.spec_in_range(range as int),
    {
        self.start_position.within(self.position, range)
    }

    /// Whether the projectile stays in the scene.
    pub fn kept(&self, range: i64) -> (r: bool)
        ensures
            r == self.spec_kept(range as int),
    {
        self.in_range(range) && self.alive
    }
}

/// A projectile that has not left the point it was fired at is in every
/// range but zero.
pub proof fn lemma_in_range_at_spawn(p: Projectile, range: int)
    requires
        p.position == p.start_position,
        range != 0,
    ensures
        p.spec_in_range(range),
{
    crate::geometry::lemma_within_itself(p.position, range);
}

/// The length of one part of a flight: the product of a distance `step`
/// with a part `part` of a direction is, in magnitude, `step * |part|`
/// millionths rounded down.
proof fn lemma_part_of_flight(step: int, part: int) -> (far: int)
    requires
        0 <= step <= i64::MAX,
        -ONE <= part <= ONE,
    ensures
        far == spec_product(step, part) || far == -spec_product(step, part),
        0 <= far <= step,
        (far + 1) * (far + 1) * (ONE * ONE) > (step * step) * (part * part),
{
    let size = if part < 0 { -part } else { part };
    let far = (step * size) / (ONE as int);
    assert(0 <= step * size <= step * ONE) by (nonlinear_arith)
        requires
            0 <= step,
            0 <= size <= ONE,
    ;
    assert(step * part == step * size || step * part == -(step * size)) by (nonlinear_arith)
        requires
            size == part || size == -part,
    ;
    assert(far * ONE <= step * size < (far + 1) * ONE);
    assert(0 <= far <= step);
    assert(((far + 1) * ONE) * ((far + 1) * ONE) > (step * size) * (step * size))
        by (nonlinear_arith)
        requires
            0 <= step * size < (far + 1) * ONE,
    ;
    assert((far + 1) * (far + 1) * (ONE * ONE) > (step * step) * (part * part))
        by (nonlinear_arith)
        requires
            ((far + 1) * ONE) * ((far + 1) * ONE) > (step * size) * (step * size),
            size == part || size == -part,
    ;
    far
}

/// A projectile that has flown from the point it was fired at for more
/// than its range is out of range. This holds of every direction that is
/// not shorter than a unit, once the distance flown exceeds the range by
/// two millionths, the most that rounding the two parts of the flight can
/// take from it, and of every flight that stays off the ends of the number
/// range.
pub proof fn lemma_out_of_range_after_flight(p: Projectile, dt: int, range: int)
    requires
        p.position == p.start_position,
        0 <= range,
        -ONE <= p.direction.sin <= ONE,
        -ONE <= p.direction.cos <= ONE,
        p.direction.sin * p.direction.sin + p.direction.cos * p.direction.cos >= ONE * ONE,
        p.spec_step(dt) >= range + 2,
        i64::MIN <= p.position.x - p.spec_step(dt),
        p.position.x + p.spec_step(dt) <= i64::MAX,
        i64::MIN <= p.position.y - p.spec_step(dt),
        p.position.y + p.spec_step(dt) <= i64::MAX,
    ensures
        !p.spec_update_position(dt).spec_in_range(range),
{
    let step = p.spec_step(dt) as int;
    let sin = p.direction.sin as int;
    let cos = p.direction.cos as int;
    let a = lemma_part_of_flight(step, sin);
    let b = lemma_part_of_flight(step, cos);
    let flown = p.spec_update_position(dt);
    let dx = p.start_position.x - flown.position.x;
    let dy = p.start_position.y - flown.position.y;
    assert(dx == a || dx == -a);
    assert(dy == b || dy == -b);
    crate::geometry::lemma_square_of_magnitude(dx, a);
    crate::geometry::lemma_square_of_magnitude(dy, b);
    assert(p.start_position.spec_distance_squared(flown.position) == a * a + b * b);
    assert((a + 1) * (a + 1) + (b + 1) * (b + 1) > step * step) by (nonlinear_arith)
        requires
            (a + 1) * (a + 1) * (ONE * ONE) > (step * step) * (sin * sin),
            (b + 1) * (b + 1) * (ONE * ONE) > (step * step) * (cos * cos),
            sin * sin + cos * cos >= ONE * ONE,
            ONE == 1_000_000,
    ;
    assert(step * step >= (range + 2) * (range + 2)) by (nonlinear_arith)
        requires
            step >= range + 2,
            range >= 0,
    ;
    if a * a + b * b < range * range {
        assert(a < range && b < range) by (nonlinear_arith)
            requires
                a * a + b * b < range * range,
                0 <= a,
                0 <= b,
                0 <= range,
        ;
        assert(false) by (nonlinear_arith)
            requires
                a * a + b * b < range * range,
                a < range,
                b < range,
                (a + 1) * (a + 1) + (b + 1) * (b + 1) > step * step,
                step * step >= (range + 2) * (range + 2),
        ;
    }
}

/// A projectile that has flown from the point it was fired at straight
/// along an axis of the screen, for as far as its range or farther, is out
/// of range, as long as the flight stays off the ends of the number range.
pub proof fn lemma_out_of_range_after_straight_flight(p: Projectile, dt: int, range: int)
    requires
        p.position == p.start_position,
        0 <= range <= p.spec_step(dt),
        (p.direction.sin == 0 && (p.direction.cos == ONE || p.direction.cos == -ONE)) || (
        p.direction.cos == 0 && (p.direction.sin == ONE || p.direction.sin == -ONE)),
        i64::MIN <= p.position.x - p.spec_step(dt),
        p.position.x + p.spec_step(dt) <= i64::MAX,
        i64::MIN <= p.position.y - p.spec_step(dt),
        p.position.y + p.spec_step(dt) <= i64::MAX,
    ensures
        !p.spec_update_position(dt).spec_in_range(range),
{
    let step = p.spec_step(dt) as int;
    assert(step * 0 == 0 && step * ONE == step * 1_000_000 && step * (-ONE) == -(step
        * 1_000_000)) by (nonlinear_arith);
    let flown = p.spec_update_position(dt);
    let dx = p.start_position.x - flown.position.x;
    let dy = p.start_position.y - flown.position.y;
    assert((dx == 0 && (dy == step || dy == -step)) || (dy == 0 && (dx == step || dx == -step)));
    assert(dx * dx + dy * dy == step * step) by (nonlinear_arith)
        requires
            (dx == 0 && (dy == step || dy == -step)) || (dy == 0 && (dx == step || dx == -step)),
    ;
    crate::geometry::lemma_square_monotone(range, step);
}

/// A projectile that has died stays dead, wherever it flies.
pub proof fn lemma_dead_stays_dead(p: Projectile, dt: int, screen: Vec2)
    requires
        !p.alive,
    ensures
        !p.spec_update(dt, screen).alive,
{
}

} // verus!
