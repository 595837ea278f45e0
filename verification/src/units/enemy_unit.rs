//! The enemies: they turn toward the player, turn away from peers that come
//! close, and walk on.

use vstd::prelude::*;
use vstd::arithmetic::div_mod::lemma_mod_multiples_vanish;
use crate::angle::{
    lemma_normalize_periodic, FULL_TURN, HALF_TURN,
    bearing, normalize, offset, offsets, relative, side, spec_bearing, spec_normalize,
    spec_offset, spec_offsets, spec_relative, spec_side,
};
use crate::fixed::{
    difference, product, spec_difference, spec_product, spec_sum, sum, HALF,
};
use crate::geometry::{Direction, Vec2};

verus! {

/// The hit points an enemy starts with.
pub const ENEMY_HIT_POINTS: i64 = 100_000_000;

/// The hit points that one projectile takes from an enemy.
pub const ENEMY_DAMAGE: i64 = 20_000_000;

/// The turn that a hit gives an enemy: 20 degrees.
pub const ENEMY_HIT_TURN: i64 = 20_000_000;

/// The heading an enemy starts with: -90 degrees.
pub const ENEMY_SPAWN_ROTATION: i64 = -90_000_000;

/// An enemy keeps its heading while the player is within this angle of it:
/// 9 degrees.
pub const DEAD_ZONE: i64 = 9_000_000;

/// A peer closer than this is avoided: 70 units.
pub const PROXIMITY: i64 = 70_000_000;

/// A close peer is avoided while it lies within this angle of the heading,
/// on either side: 20 degrees.
pub const SWARM_BAND: i64 = 20_000_000;

/// The share of the turning rate at which a peer is avoided: 0.7.
pub const SWARM_SHARE: i64 = 700_000;

/// An enemy of the swarm.
#[derive(Clone, Copy, Debug, PartialEq, Eq, Structural)]
pub struct EnemyUnit {
    pub position: Vec2,
    /// The heading. The enemy walks against the direction of this angle.
    pub rotation: i64,
    /// Half the width of the sprite: what is drawn and what is hit.
    pub radius: i64,
    pub shift: Vec2,
    pub hit_points: i64,
    pub alive: bool,
    /// Units walked per second.
    pub speed: i64,
    /// Degrees turned per second.
    pub rotation_speed: i64,
}

/// What an enemy has to know of the angles around it before it can move:
/// the offset to its target and the offset to each unit of the swarm. The
/// caller answers each offset `(x, y)` with the principal arctangent of
/// `y / x`; no `x` is zero.
pub struct Sight {
    pub target: Vec2,
    pub peers: Vec<Vec2>,
}

/// The heading after the turn toward a target that lies at the relative
/// angle `toward`: none inside the dead zone, else one `step` against the
/// sign of the angle.
pub open spec fn spec_pursue(rotation: i64, toward: int, step: int) -> i64 {
    if toward > DEAD_ZONE {
        spec_difference(rotation as int, step)
    } else if toward < -DEAD_ZONE {
        spec_sum(rotation as int, step)
    } else {
        rotation
    }
}

/// The heading after one peer has been looked at: a peer closer than
/// `PROXIMITY` that lies within `SWARM_BAND` of the heading turns it by
/// `nudge`, away from the side the peer is on. A peer dead ahead counts as
/// on the positive side, so that it is turned away from as well.
pub open spec fn spec_avoid(rotation: i64, me: Vec2, peer: Vec2, principal: i64, nudge: int) -> i64 {
    if me.spec_closer_than(peer, PROXIMITY as int) {
        let dx = spec_offset(spec_difference(me.x as int, peer.x as int));
        let toward = spec_relative(rotation as int, spec_bearing(dx as int, principal) as int);
        if -SWARM_BAND < toward < 0 {
            spec_difference(rotation as int, nudge)
        } else if 0 <= toward < SWARM_BAND {
            spec_sum(rotation as int, nudge)
        } else {
            rotation
        }
    } else {
        rotation
    }
}

/// The heading after the first `upto` units of the swarm have been looked
/// at, one after the other. The unit at `exclude` is the enemy itself and is
/// passed over, and so is a unit without an answer in `principals`.
pub open spec fn spec_swarm(
    rotation: i64,
    me: Vec2,
    nudge: int,
    units: Seq<EnemyUnit>,
    exclude: int,
    principals: Seq<i64>,
    upto: nat,
) -> i64
    decreases upto,
{
    if upto == 0 {
        rotation
    } else {
        let k = upto - 1;
        let before = spec_swarm(rotation, me, nudge, units, exclude, principals, k as nat);
        if k != exclude && k < principals.len() && k < units.len() {
            spec_avoid(before, me, units[k].position, principals[k], nudge)
        } else {
            before
        }
    }
}

impl EnemyUnit {
    /// The angle an enemy turns by in `dt`.
    pub open spec fn spec_step(self, dt: int) -> i64 {
        spec_product(dt, self.rotation_speed as int)
    }

    /// The angle by which an enemy turns away from one peer in `dt`.
    pub open spec fn spec_nudge(self, dt: int) -> i64 {
        spec_product(SWARM_SHARE as int, self.spec_step(dt) as int)
    }

    /// The heading after the turn toward `target`.
    pub open spec fn spec_pursued(self, dt: int, target: Vec2, principal: i64) -> i64 {
        let heading = spec_normalize(self.rotation as int) as i64;
        let dx = spec_offset(spec_difference(self.position.x as int, target.x as int));
        spec_pursue(
            heading,
            spec_relative(heading as int, spec_bearing(dx as int, principal) as int),
            self.spec_step(dt) as int,
        )
    }

    /// The heading after a whole update: the turn toward `target`, then the
    /// swarm.
    pub open spec fn spec_steered(
        self,
        dt: int,
        target: Vec2,
        units: Seq<EnemyUnit>,
        exclude: int,
        pursuit: i64,
        principals: Seq<i64>,
    ) -> i64 {
        spec_swarm(
            self.spec_pursued(dt, target, pursuit),
            self.position,
            self.spec_nudge(dt) as int,
            units,
            exclude,
            principals,
            units.len(),
        )
    }

    /// The enemy after a whole update: turned, then moved against the
    /// direction of its new heading by the distance it walks in `dt`.
    pub open spec fn spec_update(
        self,
        dt: int,
        target: Vec2,
        units: Seq<EnemyUnit>,
        exclude: int,
        pursuit: i64,
        principals: Seq<i64>,
        direction: Direction,
    ) -> EnemyUnit {
        EnemyUnit {
            rotation: self.spec_steered(dt, target, units, exclude, pursuit, principals),
            position: self.position.spec_moved_back(
                spec_product(dt, self.speed as int) as int,
                direction.cos as int,
                direction.sin as int,
            ),
            ..self
        }
    }

    /// The enemy after a projectile with the heading `projectile_rotation`
    /// has hit it: it loses `ENEMY_DAMAGE` and is turned by `ENEMY_HIT_TURN`,
    /// to the side of its heading less that of the projectile. Every hit
    /// turns: with equal headings the turn is to the positive side.
    pub open spec fn spec_hit(self, projectile_rotation: i64) -> EnemyUnit {
        let side = spec_side(self.rotation - projectile_rotation);
        EnemyUnit {
            hit_points: spec_difference(self.hit_points as int, ENEMY_DAMAGE as int),
            rotation: spec_sum(self.rotation as int, side * ENEMY_HIT_TURN),
            ..self
        }
    }

    /// A fresh enemy at `spawn_position`, for a sprite of the size `extent`:
    /// whole, alive and headed at -90 degrees.
    pub open spec fn spec_new(extent: Vec2, spawn_position: Vec2, speed: i64, rotation_speed: i64) -> EnemyUnit {
        EnemyUnit {
            position: spawn_position,
            rotation: ENEMY_SPAWN_ROTATION,
            radius: spec_product(extent.x as int, HALF as int),
            shift: Vec2 { x: 0, y: 0 },
            hit_points: ENEMY_HIT_POINTS,
            alive: true,
            speed,
            rotation_speed,
        }
    }

    /// Whether the enemy stays in the scene: it has hit points left.
    pub open spec fn spec_kept(self) -> bool {
        self.hit_points > 0
    }

    /// A fresh enemy at `spawn_position`, for a sprite of the size `extent`.
    pub fn new(extent: Vec2, spawn_position: Vec2, speed: i64, rotation_speed: i64) -> (unit: EnemyUnit)
        ensures
            unit == EnemyUnit::spec_new(extent, spawn_position, speed, rotation_speed),
    {
        EnemyUnit {
            position: spawn_position,
            rotation: ENEMY_SPAWN_ROTATION,
            radius: product(extent.x, HALF),
            shift: Vec2 { x: 0, y: 0 },
            hit_points: ENEMY_HIT_POINTS,
            alive: true,
            speed,
            rotation_speed,
        }
    }

    /// Whether the enemy stays in the scene.
    pub fn kept(&self) -> (r: bool)
        ensures
            r == self.spec_kept(),
    {
        self.hit_points > 0
    }

    /// The offsets whose arctangents `update` asks for: to `target` and to
    /// each of `units`.
    pub fn sight(&self, target: Vec2, units: &Vec<EnemyUnit>) -> (sight: Sight)
        ensures
            sight.target == spec_offsets(self.position, target),
            sight.peers@.len() == units@.len(),
            forall|k: int|
                0 <= k < units@.len() ==> sight.peers@[k] == spec_offsets(
                    self.position,
                    #[trigger] units@[k].position,
                ),
    {
        let mut peers: Vec<Vec2> = Vec::new();
        let mut k: usize = 0;
        while k < units.len()
            invariant
                k <= units@.len(),
                peers@.len() == k,
                forall|j: int|
                    0 <= j < k ==> peers@[j] == spec_offsets(
                        self.position,
                        #[trigger] units@[j].position,
                    ),
            decreases units@.len() - k,
        {
            peers.push(offsets(self.position, units[k].position));
            k += 1;
        }
        Sight { target: offsets(self.position, target), peers }
    }

    /// Looks at each unit of the swarm but the one at `exclude` and turns
    /// away from those that are close and ahead.
    pub fn swarm_behaviour(
        &mut self,
        dt: u32,
        units: &Vec<EnemyUnit>,
        exclude: usize,
        principals: &Vec<i64>,
    )
        ensures
            *final(self) == (EnemyUnit {
                rotation: spec_swarm(
                    old(self).rotation,
                    old(self).position,
                    old(self).spec_nudge(dt as int) as int,
                    units@,
                    exclude as int,
                    principals@,
                    units@.len(),
                ),
                ..*old(self)
            }),
    {
        let me: Vec2 = self.position;
        let nudge: i64 = product(SWARM_SHARE, product(dt as i64, self.rotation_speed));
        let mut rotation: i64 = self.rotation;
        let mut k: usize = 0;
        while k < units.len()
            invariant
                k <= units@.len(),
                rotation == spec_swarm(
                    old(self).rotation,
                    me,
                    nudge as int,
                    units@,
                    exclude as int,
                    principals@,
                    k as nat,
                ),
            decreases units@.len() - k,
        {
            if k != exclude && k < principals.len() {
                rotation = avoid(rotation, me, units[k].position, principals[k], nudge);
            }
            k += 1;
        }
        self.rotation = rotation;
    }

    /// The heading that `update` gives the enemy. The caller measures its
    /// sine and cosine and hands them to `update`.
    pub fn steered(
        &self,
        dt: u32,
        target: Vec2,
        units: &Vec<EnemyUnit>,
        exclude: usize,
        pursuit: i64,
        principals: &Vec<i64>,
    ) -> (rotation: i64)
        ensures
            rotation == self.spec_steered(
                dt as int,
                target,
                units@,
                exclude as int,
                pursuit,
                principals@,
            ),
    {
        let heading: i64 = normalize(self.rotation);
        let dx: i64 = offset(self.position.x, target.x);
        let toward: i64 = relative(heading, bearing(dx, pursuit));
        let step: i64 = product(dt as i64, self.rotation_speed);
        let mut turned: EnemyUnit = *self;
        if toward > DEAD_ZONE {
            turned.rotation = difference(heading, step);
        } else if toward < -DEAD_ZONE {
            turned.rotation = sum(heading, step);
        } else {
            turned.rotation = heading;
        }
        turned.swarm_behaviour(dt, units, exclude, principals);
        turned.rotation
    }

    /// Advances the enemy by `dt`: it turns toward `target` unless it faces
    /// it already, turns away from close peers, and walks. `units` is the
    /// swarm as it stood before any enemy moved, `exclude` the enemy's own
    /// place in it; `pursuit` and `principals` answer `sight`, and
    /// `direction` holds the sine and cosine of `steered`.
    pub fn update(
        &mut self,
        dt: u32,
        target: Vec2,
        units: &Vec<EnemyUnit>,
        exclude: usize,
        pursuit: i64,
        principals: &Vec<i64>,
        direction: Direction,
    )
        ensures
            *final(self) == old(self).spec_update(
                dt as int,
                target,
                units@,
                exclude as int,
                pursuit,
                principals@,
                direction,
            ),
    {
        self.rotation = self.steered(dt, target, units, exclude, pursuit, principals);
        self.position = self.position.moved_back(
            product(dt as i64, self.speed),
            direction.cos,
            direction.sin,
        );
    }

    /// Takes the hit of a projectile with the heading `projectile_rotation`.
    pub fn hit(&mut self, projectile_rotation: i64)
        ensures
            *final(self) == old(self).spec_hit(projectile_rotation),
    {
        let sign: i64 = side(self.rotation, projectile_rotation);
        self.hit_points = difference(self.hit_points, ENEMY_DAMAGE);
        self.rotation = sum(self.rotation, sign * ENEMY_HIT_TURN);
    }
}

/// Looks at one peer.
fn avoid(rotation: i64, me: Vec2, peer: Vec2, principal: i64, nudge: i64) -> (r: i64)
    ensures
        r == spec_avoid(rotation, me, peer, principal, nudge as int),
{
    if me.closer_than(peer, PROXIMITY) {
        let dx: i64 = offset(me.x, peer.x);
        let toward: i64 = relative(rotation, bearing(dx, principal));
        if -SWARM_BAND < toward && toward < 0 {
            difference(rotation, nudge)
        } else if 0 <= toward && toward < SWARM_BAND {
            sum(rotation, nudge)
        } else {
            rotation
        }
    } else {
        rotation
    }
}

/// A close peer ahead turns the heading: an enemy that looks at a peer
/// closer than `PROXIMITY` and within `SWARM_BAND` of its heading leaves
/// with another heading, one nudge away from the side of the peer, and to
/// the positive side from a peer dead ahead. This holds wherever the nudge
/// is not zero and the turn stays off the ends of the number range.
pub proof fn lemma_close_peer_ahead_turns(rotation: i64, me: Vec2, peer: Vec2, principal: i64, nudge: int)
    requires
        me.spec_closer_than(peer, PROXIMITY as int),
        nudge > 0,
        i64::MIN <= rotation - nudge,
        rotation + nudge <= i64::MAX,
    ensures
        ({
            let dx = spec_offset(spec_difference(me.x as int, peer.x as int));
            let toward = spec_relative(rotation as int, spec_bearing(dx as int, principal) as int);
            &&& 0 <= toward < SWARM_BAND ==> spec_avoid(rotation, me, peer, principal, nudge)
                == rotation + nudge
            &&& -SWARM_BAND < toward < 0 ==> spec_avoid(rotation, me, peer, principal, nudge)
                == rotation - nudge
            &&& -SWARM_BAND < toward < SWARM_BAND ==> spec_avoid(
                rotation,
                me,
                peer,
                principal,
                nudge,
            ) != rotation
        }),
{
}

/// A peer that is not closer than `PROXIMITY` leaves the heading alone.
pub proof fn lemma_far_peer_is_ignored(rotation: i64, me: Vec2, peer: Vec2, principal: i64, nudge: int)
    requires
        !me.spec_closer_than(peer, PROXIMITY as int),
    ensures
        spec_avoid(rotation, me, peer, principal, nudge) == rotation,
{
}

/// Bringing a heading into one turn does not change the angle from a
/// bearing to it.
pub proof fn lemma_relative_ignores_whole_turns(heading: int, bearing: int)
    ensures
        spec_relative(spec_normalize(heading), bearing) == spec_relative(heading, bearing),
        (spec_normalize(heading) - heading) % (FULL_TURN as int) == 0,
{
    let m = FULL_TURN as int;
    let q = (heading + HALF_TURN) / m;
    assert(heading + HALF_TURN == m * q + (heading + HALF_TURN) % m);
    assert(spec_normalize(heading) == heading - m * q);
    assert(heading - bearing + (-q) * FULL_TURN == spec_normalize(heading) - bearing)
        by (nonlinear_arith)
        requires
            spec_normalize(heading) == heading - m * q,
            m == FULL_TURN,
    ;
    lemma_normalize_periodic(heading - bearing, -q);
    lemma_mod_multiples_vanish(-q, 0, m);
    assert(m * (-q) + 0 == spec_normalize(heading) - heading) by (nonlinear_arith)
        requires
            spec_normalize(heading) == heading - m * q,
    ;
}

/// An enemy that has no peer to look at leaves the swarm with the heading
/// it came with.
pub proof fn lemma_swarm_of_one(
    rotation: i64,
    me: Vec2,
    nudge: int,
    units: Seq<EnemyUnit>,
    exclude: int,
    principals: Seq<i64>,
    upto: nat,
)
    requires
        units.len() <= 1,
        units.len() == 1 ==> exclude == 0,
    ensures
        spec_swarm(rotation, me, nudge, units, exclude, principals, upto) == rotation,
    decreases upto,
{
    if upto > 0 {
        lemma_swarm_of_one(rotation, me, nudge, units, exclude, principals, (upto - 1) as nat);
    }
}

/// The turn toward the target, for an enemy without peers: where the angle
/// from the bearing to its heading, brought into `[-180, 180)` degrees, is
/// beyond `DEAD_ZONE`, the enemy turns by one step against the sign of that
/// angle, and else it keeps its heading. The new heading is the old one
/// with the step, up to whole turns. A target straight behind counts as
/// -180 degrees, so the enemy then turns with the positive step. This holds
/// wherever the step does not carry the heading, brought into one turn, past
/// the ends of the number range, where the turn stops instead.
pub proof fn lemma_turn_toward_the_target(
    unit: EnemyUnit,
    dt: int,
    target: Vec2,
    units: Seq<EnemyUnit>,
    exclude: int,
    pursuit: i64,
    principals: Seq<i64>,
    direction: Direction,
)
    requires
        units.len() <= 1,
        units.len() == 1 ==> exclude == 0,
        ({
            let dx = spec_offset(spec_difference(unit.position.x as int, target.x as int));
            let toward = spec_relative(unit.rotation as int, spec_bearing(dx as int, pursuit) as int);
            let heading = spec_normalize(unit.rotation as int);
            &&& toward > DEAD_ZONE ==> i64::MIN <= heading - unit.spec_step(dt) <= i64::MAX
            &&& toward < -DEAD_ZONE ==> i64::MIN <= heading + unit.spec_step(dt) <= i64::MAX
        }),
    ensures
        ({
            let dx = spec_offset(spec_difference(unit.position.x as int, target.x as int));
            let toward = spec_relative(unit.rotation as int, spec_bearing(dx as int, pursuit) as int);
            let step = unit.spec_step(dt);
            let after = unit.spec_update(
                dt,
                target,
                units,
                exclude,
                pursuit,
                principals,
                direction,
            ).rotation;
            &&& -HALF_TURN <= toward < HALF_TURN
            &&& toward > DEAD_ZONE ==> after == spec_normalize(unit.rotation as int) - step && (
            after - (unit.rotation - step)) % (FULL_TURN as int) == 0
            &&& toward < -DEAD_ZONE ==> after == spec_normalize(unit.rotation as int) + step && (
            after - (unit.rotation + step)) % (FULL_TURN as int) == 0
            &&& -DEAD_ZONE <= toward <= DEAD_ZONE ==> after == spec_normalize(unit.rotation as int)
                && (after - unit.rotation) % (FULL_TURN as int) == 0
            &&& toward == -HALF_TURN ==> after == spec_normalize(unit.rotation as int) + step
        }),
{
    let dx = spec_offset(spec_difference(unit.position.x as int, target.x as int));
    let bearing = spec_bearing(dx as int, pursuit) as int;
    lemma_relative_ignores_whole_turns(unit.rotation as int, bearing);
    lemma_swarm_of_one(
        unit.spec_pursued(dt, target, pursuit),
        unit.position,
        unit.spec_nudge(dt) as int,
        units,
        exclude,
        principals,
        units.len(),
    );
}

/// In a swarm of two, an enemy that comes out of its turn toward the
/// target with a close peer within `SWARM_BAND` of its heading ends on
/// another heading than it would without the peer: one nudge farther from
/// the side of the peer, and to the positive side from a peer dead ahead.
/// The enemy may stand at either place of the swarm, so of two enemies that
/// head straight at each other both turn away, whatever their order. This
/// holds wherever the nudge is not zero and does not carry the heading to
/// the ends of the number range.
pub proof fn lemma_pair_turns_away(
    unit: EnemyUnit,
    dt: int,
    target: Vec2,
    units: Seq<EnemyUnit>,
    me: int,
    pursuit: i64,
    principals: Seq<i64>,
)
    requires
        units.len() == 2,
        principals.len() == 2,
        me == 0 || me == 1,
        unit.position.spec_closer_than(units[1 - me].position, PROXIMITY as int),
        unit.spec_nudge(dt) > 0,
        i64::MIN <= unit.spec_pursued(dt, target, pursuit) - unit.spec_nudge(dt),
        unit.spec_pursued(dt, target, pursuit) + unit.spec_nudge(dt) <= i64::MAX,
    ensures
        ({
            let alone = unit.spec_pursued(dt, target, pursuit);
            let peer = units[1 - me];
            let dx = spec_offset(spec_difference(unit.position.x as int, peer.position.x as int));
            let toward = spec_relative(
                alone as int,
                spec_bearing(dx as int, principals[1 - me]) as int,
            );
            let after = unit.spec_steered(dt, target, units, me, pursuit, principals);
            &&& 0 <= toward < SWARM_BAND ==> after == alone + unit.spec_nudge(dt)
            &&& -SWARM_BAND < toward < 0 ==> after == alone - unit.spec_nudge(dt)
            &&& -SWARM_BAND < toward < SWARM_BAND ==> after != alone
            &&& alone == unit.spec_steered(dt, target, seq![unit], 0, pursuit, principals)
        }),
{
    reveal_with_fuel(spec_swarm, 3);
}

/// Every hit turns the enemy by `ENEMY_HIT_TURN`, to one side or the
/// other, and takes `ENEMY_DAMAGE` from its hit points, wherever neither
/// reaches the ends of the number range. With equal headings of enemy and
/// projectile the turn is to the positive side.
pub proof fn lemma_hit_turns(unit: EnemyUnit, projectile_rotation: i64)
    requires
        i64::MIN <= unit.rotation - ENEMY_HIT_TURN,
        unit.rotation + ENEMY_HIT_TURN <= i64::MAX,
        i64::MIN <= unit.hit_points - ENEMY_DAMAGE,
    ensures
        unit.spec_hit(projectile_rotation).hit_points == unit.hit_points - ENEMY_DAMAGE,
        unit.rotation >= projectile_rotation ==> unit.spec_hit(projectile_rotation).rotation
            == unit.rotation + ENEMY_HIT_TURN,
        unit.rotation < projectile_rotation ==> unit.spec_hit(projectile_rotation).rotation
            == unit.rotation - ENEMY_HIT_TURN,
        unit.spec_hit(projectile_rotation).position == unit.position,
{
}

} // verus!
