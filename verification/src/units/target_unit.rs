//! The target: it stands still, takes hits and is knocked about by them.

use vstd::prelude::*;
use crate::cue::Cue;
use crate::fixed::{product, spec_product, spec_sum, sum, HALF};
use crate::geometry::{Direction, Vec2};

verus! {

/// The hit points the target starts an encounter with.
pub const TARGET_HIT_POINTS: i64 = 100_000_000;

/// How far a blow pushes the target's picture: 5 units.
pub const KNOCKBACK: i64 = 5_000_000;

/// The stationary target.
#[derive(Clone, Copy, Debug, PartialEq, Eq, Structural)]
pub struct TargetUnit {
    pub position: Vec2,
    /// Half the width of the sprite.
    pub radius: i64,
    /// Where the last blow pushed the picture.
    pub shift: Vec2,
    pub hit_points: i64,
    pub alive: bool,
}

impl TargetUnit {
    /// The target after a blow from the heading `direction`: the target
    /// is dead once its hit points are zero or less, and the picture is
    /// pushed by `KNOCKBACK` along the heading. The blow itself leaves the
    /// hit points as they are.
    pub open spec fn spec_struck(self, direction: Direction) -> TargetUnit {
        TargetUnit {
            alive: self.alive && self.hit_points > 0,
            shift: Vec2 {
                x: spec_product(KNOCKBACK as int, direction.sin as int),
                y: spec_product(KNOCKBACK as int, direction.cos as int),
            },
            ..self
        }
    }

    /// The target after `update_movement`.
    pub open spec fn spec_update_movement(self, impact: bool, direction: Direction) -> TargetUnit {
        if impact {
            self.spec_struck(direction)
        } else {
            self
        }
    }

    /// The target after its hit points have changed by `hit_points`.
    pub open spec fn spec_damaged(self, hit_points: int) -> TargetUnit {
        TargetUnit { hit_points: spec_sum(self.hit_points as int, hit_points), ..self }
    }

    /// The target after `update`.
    pub open spec fn spec_update(self, impact: bool, hit_points: int, direction: Direction) -> TargetUnit {
        self.spec_damaged(hit_points).spec_update_movement(impact, direction)
    }

    /// The target as an encounter starts: whole, alive and at rest.
    pub open spec fn spec_reset(self) -> TargetUnit {
        TargetUnit {
            hit_points: TARGET_HIT_POINTS,
            alive: true,
            shift: Vec2 { x: 0, y: 0 },
            ..self
        }
    }

    /// The sound of `update_movement`: none without a blow, and else that
    /// of a blow on the target as it is after it.
    pub open spec fn spec_cue(self, impact: bool, direction: Direction) -> Option<Cue> {
        if impact {
            Some(Cue::TargetImpact { alive: self.spec_struck(direction).alive })
        } else {
            None
        }
    }

    /// A whole target at `spawn_position`, for a sprite of the size
    /// `extent`.
    pub open spec fn spec_new(extent: Vec2, spawn_position: Vec2) -> TargetUnit {
        TargetUnit {
            position: spawn_position,
            radius: spec_product(extent.x as int, HALF as int),
            shift: Vec2 { x: 0, y: 0 },
            hit_points: TARGET_HIT_POINTS,
            alive: true,
        }
    }

    /// A whole target at `spawn_position`, for a sprite of the size
    /// `extent`.
    pub fn new(extent: Vec2, spawn_position: Vec2) -> (unit: TargetUnit)
        ensures
            unit == TargetUnit::spec_new(extent, spawn_position),
    {
        TargetUnit {
            position: spawn_position,
            radius: product(extent.x, HALF),
            shift: Vec2 { x: 0, y: 0 },
            hit_points: TARGET_HIT_POINTS,
            alive: true,
        }
    }

    /// Takes a blow from the heading `direction`, if `impact` says there
    /// is one, and returns its sound.
    pub fn update_movement(&mut self, impact: bool, direction: Direction) -> (cue: Option<Cue>)
        ensures
            *final(self) == old(self).spec_update_movement(impact, direction),
            cue == old(self).spec_cue(impact, direction),
    {
        if impact {
            if self.hit_points <= 0 {
                self.alive = false;
            }
            self.shift = Vec2 {
                x: product(KNOCKBACK, direction.sin),
                y: product(KNOCKBACK, direction.cos),
            };
            Some(Cue::TargetImpact { alive: self.alive })
        } else {
            None
        }
    }

    /// Changes the hit points by `hit_points`, then takes the blow.
    pub fn update(&mut self, impact: bool, hit_points: i64, direction: Direction) -> (cue: Option<Cue>)
        ensures
            *final(self) == old(self).spec_update(impact, hit_points as int, direction),
            cue == old(self).spec_damaged(hit_points as int).spec_cue(impact, direction),
    {
        self.hit_points = sum(self.hit_points, hit_points);
        self.update_movement(impact, direction)
    }

    /// Makes the target whole again for the next encounter.
    pub fn reset(&mut self)
        ensures
            *final(self) == old(self).spec_reset(),
    {
        self.hit_points = TARGET_HIT_POINTS;
        self.alive = true;
        self.shift = Vec2 { x: 0, y: 0 };
    }
}

/// A blow changes the hit points by the damage that comes with it and by
/// nothing else, whatever its heading; the target is alive after it only if
/// it was alive before and has hit points left.
pub proof fn lemma_blow_takes_the_damage(unit: TargetUnit, hit_points: int, direction: Direction)
    ensures
        unit.spec_update(true, hit_points, direction).hit_points == spec_sum(
            unit.hit_points as int,
            hit_points,
        ),
        unit.spec_update(true, hit_points, direction).alive == (unit.alive && spec_sum(
            unit.hit_points as int,
            hit_points,
        ) > 0),
        unit.spec_update(true, hit_points, direction).position == unit.position,
        unit.spec_update(true, hit_points, direction).radius == unit.radius,
{
}

/// A dead target stays dead under every blow: only a reset revives it.
pub proof fn lemma_death_is_final(unit: TargetUnit, impact: bool, hit_points: int, direction: Direction)
    requires
        !unit.alive,
    ensures
        !unit.spec_update(impact, hit_points, direction).alive,
{
}

} // verus!
