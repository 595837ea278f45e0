//! What happens between the entities in a tick: the player's shot, the
//! enemies' move, the pruning of what is spent, and the hits.

use vstd::prelude::*;
use crate::command::Command;
use crate::cue::Cue;
use crate::fixed::{difference, product, spec_difference, spec_product, spec_sum, sum};
use crate::geometry::{Direction, Vec2};
use crate::scene::{Input, Pursuit, Scene, SceneView};
use crate::units::enemy_unit::EnemyUnit;
use crate::units::projectile::Projectile;

verus! {

/// How far in front of the player a projectile appears: 65 units.
pub const MUZZLE: i64 = 65_000_000;

/// How much faster than the player a projectile is: three times.
pub const PROJECTILE_PACE: i64 = 3_000_000;

/// The change that a projectile makes to the target's hit points: -20.
pub const TARGET_DAMAGE: i64 = -20_000_000;

/// The hit points at which the target's fall ends the encounter: -100.
pub const RESTART_FLOOR: i64 = -100_000_000;

/// The enemies that stay in the scene.
pub open spec fn spec_enemy_kept() -> spec_fn(EnemyUnit) -> bool {
    |unit: EnemyUnit| unit.spec_kept()
}

/// The projectiles that stay in a scene whose player shoots as far as
/// `range`.
pub open spec fn spec_projectile_kept(range: int) -> spec_fn(Projectile) -> bool {
    |p: Projectile| p.spec_kept(range)
}

/// Filtering one element more either appends it or changes nothing.
pub(crate) proof fn lemma_filter_step<A>(s: Seq<A>, pred: spec_fn(A) -> bool, i: int)
    requires
        0 <= i < s.len(),
    ensures
        s.take(i + 1).filter(pred) == if pred(s[i]) {
            s.take(i).filter(pred).push(s[i])
        } else {
            s.take(i).filter(pred)
        },
{
    reveal(Seq::filter);
    assert(s.take(i + 1).drop_last() =~= s.take(i));
    assert(s.take(i + 1).last() == s[i]);
}

impl SceneView {
    /// The point the player aims at: the point of the last commanded shot,
    /// and the pointer while that is the origin.
    pub open spec fn spec_aim_point(self, pointer: Vec2) -> Vec2 {
        if self.target_point.x != 0 || self.target_point.y != 0 {
            self.target_point
        } else {
            pointer
        }
    }

    /// Whether the player fires in this tick.
    pub open spec fn spec_fires(self, input: Input) -> bool {
        self.main_unit.spec_update_fires(self.dt as int, self.command, input.trigger)
    }

    /// The projectile that the player has just fired: it appears `MUZZLE`
    /// in front of the player, flies along the player's heading, of which
    /// `direction` holds the sine and cosine, and is `PROJECTILE_PACE`
    /// times as fast as the player.
    pub open spec fn spec_fired(self, direction: Direction) -> Projectile {
        Projectile::spec_new(
            self.sprites.projectile,
            self.main_unit.rotation,
            direction,
            Vec2 {
                x: spec_sum(
                    self.main_unit.position.x as int,
                    spec_product(MUZZLE as int, direction.sin as int) as int,
                ),
                y: spec_difference(
                    self.main_unit.position.y as int,
                    spec_product(MUZZLE as int, direction.cos as int) as int,
                ),
            },
            spec_product(self.main_unit.speed as int, PROJECTILE_PACE as int),
        )
    }

    /// The scene after the player has been advanced and has fired, if it
    /// does.
    pub open spec fn spec_main_unit_shoot(self, input: Input, principal: i64, direction: Direction) -> SceneView {
        let moved = SceneView {
            main_unit: self.main_unit.spec_update(
                self.dt as int,
                self.spec_aim_point(input.pointer),
                self.command,
                input.trigger,
                principal,
            ),
            command: Command { shoot: self.spec_fires(input), ..self.command },
            ..self
        };
        if self.spec_fires(input) {
            SceneView { projectiles: moved.projectiles.push(moved.spec_fired(direction)), ..moved }
        } else {
            moved
        }
    }

    /// The offset whose arctangent the player's update asks for.
    pub open spec fn spec_aim(self, input: Input) -> Vec2 {
        self.main_unit.spec_aim(
            self.dt as int,
            self.spec_aim_point(input.pointer),
            self.command,
            input.trigger,
        )
    }

    /// The scene without the enemies that have no hit points left.
    pub open spec fn spec_remove_dead_enemy_units(self) -> SceneView {
        SceneView { enemy_units: self.enemy_units.filter(spec_enemy_kept()), ..self }
    }

    /// The scene without the projectiles that are dead or have flown as
    /// far as the player shoots.
    pub open spec fn spec_remove_projectile_out_of_range(self) -> SceneView {
        SceneView {
            projectiles: self.projectiles.filter(
                spec_projectile_kept(self.main_unit.shoot_range as int),
            ),
            ..self
        }
    }
}

impl Scene {
    /// The point the player aims at.
    pub fn aim_point(&self, pointer: Vec2) -> (r: Vec2)
        ensures
            r == self@.spec_aim_point(pointer),
    {
        if self.target_point.x != 0 || self.target_point.y != 0 {
            self.target_point
        } else {
            pointer
        }
    }

    /// Advances the player, and adds the projectile if it fires.
    /// `principal` answers the player's `aim`, and `direction` holds the
    /// sine and cosine of the heading the player then has.
    pub fn main_unit_shoot(
        &mut self,
        input: &Input,
        principal: i64,
        direction: Direction,
        cues: &mut Vec<Cue>,
    )
        ensures
            final(self)@ == old(self)@.spec_main_unit_shoot(*input, principal, direction),
            final(cues)@ == if old(self)@.spec_fires(*input) {
                old(cues)@.push(Cue::Shot)
            } else {
                old(cues)@
            },
    {
        let target_point = self.aim_point(input.pointer);
        let mut command = self.command;
        self.main_unit.update(self.dt, target_point, &mut command, input.trigger, principal);
        self.command = command;
        if self.command.shoot {
            let position = Vec2 {
                x: sum(self.main_unit.position.x, product(MUZZLE, direction.sin)),
                y: difference(self.main_unit.position.y, product(MUZZLE, direction.cos)),
            };
            let projectile = Projectile::new(
                self.sprites.projectile,
                self.main_unit.rotation,
                direction,
                position,
                product(self.main_unit.speed, PROJECTILE_PACE),
            );
            self.projectiles.push(projectile);
            cues.push(Cue::Shot);
        }
    }

    /// Removes the enemies that have no hit points left.
    pub fn remove_dead_enemy_units(&mut self)
        ensures
            final(self)@ == old(self)@.spec_remove_dead_enemy_units(),
    {
        let mut kept: Vec<EnemyUnit> = Vec::new();
        let mut i: usize = 0;
        while i < self.enemy_units.len()
            invariant
                i <= self.enemy_units@.len(),
                *self == *old(self),
                kept@ == self.enemy_units@.take(i as int).filter(spec_enemy_kept()),
            decreases self.enemy_units@.len() - i,
        {
            proof {
                lemma_filter_step(self.enemy_units@, spec_enemy_kept(), i as int);
            }
            if self.enemy_units[i].kept() {
                kept.push(self.enemy_units[i]);
            }
            i += 1;
        }
        assert(self.enemy_units@.take(i as int) =~= self.enemy_units@);
        self.enemy_units = kept;
    }

    /// Removes the projectiles that are dead or out of range.
    pub fn remove_projectile_out_of_range(&mut self)
        ensures
            final(self)@ == old(self)@.spec_remove_projectile_out_of_range(),
    {
        let range: i64 = self.main_unit.shoot_range;
        let mut kept: Vec<Projectile> = Vec::new();
        let mut i: usize = 0;
        while i < self.projectiles.len()
            invariant
                i <= self.projectiles@.len(),
                *self == *old(self),
                kept@ == self.projectiles@.take(i as int).filter(spec_projectile_kept(range as int)),
            decreases self.projectiles@.len() - i,
        {
            proof {
                lemma_filter_step(self.projectiles@, spec_projectile_kept(range as int), i as int);
            }
            if self.projectiles[i].kept(range) {
                kept.push(self.projectiles[i]);
            }
            i += 1;
        }
        assert(self.projectiles@.take(i as int) =~= self.projectiles@);
        self.projectiles = kept;
    }
}

/// Whether there is one answer for each of `count` enemies, and in each
/// answer one arctangent for each of them.
pub open spec fn spec_pursuits_fit(pursuits: Seq<Pursuit>, count: nat) -> bool {
    &&& pursuits.len() == count
    &&& forall|k: int| 0 <= k < count ==> (#[trigger] pursuits[k]).peers@.len() == count
}

/// Whether there is one answer for each of `count` enemies.
pub fn pursuits_fit(pursuits: &Vec<Pursuit>, count: usize) -> (r: bool)
    ensures
        r == spec_pursuits_fit(pursuits@, count as nat),
{
    if pursuits.len() != count {
        return false;
    }
    let mut k: usize = 0;
    while k < count
        invariant
            k <= count,
            pursuits@.len() == count,
            forall|j: int| 0 <= j < k ==> (#[trigger] pursuits@[j]).peers@.len() == count,
        decreases count - k,
    {
        if pursuits[k].peers.len() != count {
            return false;
        }
        k += 1;
    }
    true
}

/// The place of the first enemy, from `from` on, that a projectile at
/// `position` is closer to than the enemy's radius; the number of enemies
/// if there is none.
pub open spec fn spec_first_struck(position: Vec2, enemies: Seq<EnemyUnit>, from: int) -> int
    decreases enemies.len() - from,
{
    if from < 0 || from >= enemies.len() {
        enemies.len() as int
    } else if position.spec_closer_than(enemies[from].position, enemies[from].radius as int) {
        from
    } else {
        spec_first_struck(position, enemies, from + 1)
    }
}

impl SceneView {
    /// The enemy at `k` after its update: it has seen the swarm as the
    /// scene holds it, and has chased the player.
    pub open spec fn spec_enemy_updated(self, k: int, pursuits: Seq<Pursuit>, directions: Seq<Direction>) -> EnemyUnit {
        self.enemy_units[k].spec_update(
            self.dt as int,
            self.main_unit.position,
            self.enemy_units,
            k,
            pursuits[k].target,
            pursuits[k].peers@,
            directions[k],
        )
    }

    /// The scene after every enemy has been updated. Each enemy sees the
    /// others where they stood before any of them moved.
    pub open spec fn spec_update_enemy_units(self, pursuits: Seq<Pursuit>, directions: Seq<Direction>) -> SceneView {
        SceneView {
            enemy_units: Seq::new(
                self.enemy_units.len(),
                |k: int| self.spec_enemy_updated(k, pursuits, directions),
            ),
            ..self
        }
    }

    /// Whether the projectile at `i` strikes the target: it is alive, and
    /// the square of its distance to the target is below the square of the
    /// target's radius.
    pub open spec fn spec_strikes_target(self, i: int) -> bool {
        self.projectiles[i].alive && self.projectiles[i].position.spec_within(
            self.target_unit.position,
            self.target_unit.radius as int,
        )
    }

    /// The scene after the projectile at `i` has been held against the
    /// target. One that strikes is spent and damages the target, and the
    /// next encounter starts if that brings the target's hit points down to
    /// `RESTART_FLOOR`. One that does not strike flies on.
    pub open spec fn spec_strike_target(self, i: int, screen: Vec2) -> SceneView {
        let p = self.projectiles[i];
        if self.spec_strikes_target(i) {
            let struck = SceneView {
                projectiles: self.projectiles.update(i, p.spec_spent()),
                target_unit: self.target_unit.spec_update(true, TARGET_DAMAGE as int, p.direction),
                ..self
            };
            if struck.target_unit.hit_points <= RESTART_FLOOR {
                struck.spec_restart()
            } else {
                struck
            }
        } else {
            SceneView {
                projectiles: self.projectiles.update(i, p.spec_update(self.dt as int, screen)),
                ..self
            }
        }
    }

    /// The sound that the projectile at `i` makes on the target, if it
    /// strikes.
    pub open spec fn spec_strike_target_cue(self, i: int) -> Option<Cue> {
        if self.spec_strikes_target(i) {
            self.target_unit.spec_damaged(TARGET_DAMAGE as int).spec_cue(
                true,
                self.projectiles[i].direction,
            )
        } else {
            None
        }
    }

    /// The scene after the first `upto` projectiles have been held against
    /// the target, one after the other.
    pub open spec fn spec_target_unit_hit_upto(self, screen: Vec2, upto: nat) -> SceneView
        decreases upto,
    {
        if upto == 0 {
            self
        } else {
            self.spec_target_unit_hit_upto(screen, (upto - 1) as nat).spec_strike_target(
                upto - 1,
                screen,
            )
        }
    }

    /// The sounds of the first `upto` projectiles on the target, in their
    /// order.
    pub open spec fn spec_target_unit_hit_cues_upto(self, screen: Vec2, upto: nat) -> Seq<Cue>
        decreases upto,
    {
        if upto == 0 {
            Seq::empty()
        } else {
            let before = self.spec_target_unit_hit_cues_upto(screen, (upto - 1) as nat);
            match self.spec_target_unit_hit_upto(screen, (upto - 1) as nat).spec_strike_target_cue(
                upto - 1,
            ) {
                Some(cue) => before.push(cue),
                None => before,
            }
        }
    }

    /// The scene after every projectile has been held against the target.
    pub open spec fn spec_target_unit_hit(self, screen: Vec2) -> SceneView {
        self.spec_target_unit_hit_upto(screen, self.projectiles.len())
    }

    /// The sounds of all the projectiles on the target.
    pub open spec fn spec_target_unit_hit_cues(self, screen: Vec2) -> Seq<Cue> {
        self.spec_target_unit_hit_cues_upto(screen, self.projectiles.len())
    }

    /// Whether the projectile at `i` strikes an enemy: it is alive and
    /// closer to one than that enemy's radius.
    pub open spec fn spec_strikes_enemy(self, i: int) -> bool {
        self.projectiles[i].alive && spec_first_struck(
            self.projectiles[i].position,
            self.enemy_units,
            0,
        ) < self.enemy_units.len()
    }

    /// The scene after the projectile at `i` has been held against the
    /// enemies. A live projectile strikes the first enemy it is close
    /// enough to, and no other: it is spent, and the enemy takes the hit.
    pub open spec fn spec_strike_enemies(self, i: int) -> SceneView {
        let p = self.projectiles[i];
        let j = spec_first_struck(p.position, self.enemy_units, 0);
        if self.spec_strikes_enemy(i) {
            SceneView {
                projectiles: self.projectiles.update(i, p.spec_spent()),
                enemy_units: self.enemy_units.update(j, self.enemy_units[j].spec_hit(p.rotation)),
                ..self
            }
        } else {
            self
        }
    }

    /// The scene after the first `upto` projectiles have been held against
    /// the enemies, one after the other.
    pub open spec fn spec_enemy_units_hit_upto(self, upto: nat) -> SceneView
        decreases upto,
    {
        if upto == 0 {
            self
        } else {
            self.spec_enemy_units_hit_upto((upto - 1) as nat).spec_strike_enemies(upto - 1)
        }
    }

    /// The sounds of the first `upto` projectiles on the enemies: one for
    /// each that strikes.
    pub open spec fn spec_enemy_units_hit_cues_upto(self, upto: nat) -> Seq<Cue>
        decreases upto,
    {
        if upto == 0 {
            Seq::empty()
        } else {
            let before = self.spec_enemy_units_hit_cues_upto((upto - 1) as nat);
            if self.spec_enemy_units_hit_upto((upto - 1) as nat).spec_strikes_enemy(upto - 1) {
                before.push(Cue::EnemyImpact)
            } else {
                before
            }
        }
    }

    /// The scene after every projectile has been held against the enemies.
    pub open spec fn spec_enemy_units_hit(self) -> SceneView {
        self.spec_enemy_units_hit_upto(self.projectiles.len())
    }

    /// The sounds of all the projectiles on the enemies.
    pub open spec fn spec_enemy_units_hit_cues(self) -> Seq<Cue> {
        self.spec_enemy_units_hit_cues_upto(self.projectiles.len())
    }
}

/// Every enemy that is left after the pruning has hit points, and every
/// projectile that is left is alive and in range.
pub proof fn lemma_pruned(v: SceneView)
    ensures
        forall|k: int|
            0 <= k < v.spec_remove_dead_enemy_units().enemy_units.len() ==> (
            #[trigger] v.spec_remove_dead_enemy_units().enemy_units[k]).hit_points > 0,
        forall|k: int|
            0 <= k < v.spec_remove_projectile_out_of_range().projectiles.len() ==> (
            #[trigger] v.spec_remove_projectile_out_of_range().projectiles[k]).spec_kept(
                v.main_unit.shoot_range as int,
            ),
        v.spec_remove_dead_enemy_units().enemy_units.len() <= v.enemy_units.len(),
        v.spec_remove_projectile_out_of_range().projectiles.len() <= v.projectiles.len(),
{
    #[allow(deprecated)]
    v.enemy_units.filter_lemma(spec_enemy_kept());
    #[allow(deprecated)]
    v.projectiles.filter_lemma(spec_projectile_kept(v.main_unit.shoot_range as int));
}

/// An enemy without hit points does not outlast the pruning: no enemy of
/// the pruned scene is one.
pub proof fn lemma_dead_enemy_is_removed(v: SceneView, unit: EnemyUnit)
    requires
        unit.hit_points <= 0,
    ensures
        !v.spec_remove_dead_enemy_units().enemy_units.contains(unit),
{
    lemma_pruned(v);
}

/// A blow that brings the target's hit points down to `RESTART_FLOOR`
/// starts the next encounter, whatever the heading of the blow: the
/// projectile is spent, the target is whole and alive again, and exactly
/// four fresh enemies stand around it.
pub proof fn lemma_fall_restarts(v: SceneView, i: int, screen: Vec2)
    requires
        0 <= i < v.projectiles.len(),
        v.spec_strikes_target(i),
        v.target_unit.hit_points + TARGET_DAMAGE <= RESTART_FLOOR,
    ensures
        v.spec_strike_target(i, screen).target_unit.hit_points
            == crate::units::target_unit::TARGET_HIT_POINTS,
        v.spec_strike_target(i, screen).target_unit.alive,
        v.spec_strike_target(i, screen).enemy_units.len() == 4,
        v.spec_strike_target(i, screen).enemy_units == v.spec_restart().enemy_units,
        v.spec_strike_target(i, screen).main_unit == v.main_unit,
        v.spec_strike_target(i, screen).projectiles == v.projectiles.update(
            i,
            v.projectiles[i].spec_spent(),
        ),
{
    crate::scene::lifecycle::lemma_restart(v);
    let struck = SceneView {
        projectiles: v.projectiles.update(i, v.projectiles[i].spec_spent()),
        target_unit: v.target_unit.spec_update(true, TARGET_DAMAGE as int, v.projectiles[i].direction),
        ..v
    };
    crate::scene::lifecycle::lemma_restart(struck);
}

/// A blow that leaves the target above `RESTART_FLOOR` takes exactly
/// `TARGET_DAMAGE` from its hit points, whatever the heading of the blow,
/// spends the projectile where it is and leaves the enemies as they are.
pub proof fn lemma_blow_above_the_floor(v: SceneView, i: int, screen: Vec2)
    requires
        0 <= i < v.projectiles.len(),
        v.spec_strikes_target(i),
        v.target_unit.hit_points + TARGET_DAMAGE > RESTART_FLOOR,
    ensures
        v.spec_strike_target(i, screen).enemy_units == v.enemy_units,
        v.spec_strike_target(i, screen).target_unit.hit_points == v.target_unit.hit_points
            + TARGET_DAMAGE,
        v.spec_strike_target(i, screen).target_unit.alive == (v.target_unit.alive
            && v.target_unit.hit_points + TARGET_DAMAGE > 0),
        v.spec_strike_target(i, screen).target_unit.position == v.target_unit.position,
        v.spec_strike_target(i, screen).projectiles == v.projectiles.update(
            i,
            v.projectiles[i].spec_spent(),
        ),
{
}

/// A projectile that is dead is held against nothing: it strikes neither
/// the target nor an enemy, makes no sound, and the pruning removes it.
pub proof fn lemma_dead_projectile_is_inert(v: SceneView, i: int)
    requires
        0 <= i < v.projectiles.len(),
        !v.projectiles[i].alive,
    ensures
        !v.spec_strikes_target(i),
        v.spec_strike_target_cue(i) == None::<Cue>,
        !v.spec_strikes_enemy(i),
        v.spec_strike_enemies(i) == v,
        !v.spec_remove_projectile_out_of_range().projectiles.contains(v.projectiles[i]),
{
    lemma_pruned(v);
}

/// A live projectile in reach of an enemy spends itself on the first such
/// enemy, which loses `ENEMY_DAMAGE` and is turned by `ENEMY_HIT_TURN` to
/// one side or the other, to the positive side where its heading is that of
/// the projectile; no other enemy changes. The numbers hold wherever they
/// stay off the ends of the number range.
pub proof fn lemma_strike_turns_the_enemy(v: SceneView, i: int)
    requires
        0 <= i < v.projectiles.len(),
        v.spec_strikes_enemy(i),
    ensures
        ({
            let p = v.projectiles[i];
            let j = spec_first_struck(p.position, v.enemy_units, 0);
            let before = v.enemy_units[j];
            let after = v.spec_strike_enemies(i).enemy_units[j];
            &&& 0 <= j < v.enemy_units.len()
            &&& p.position.spec_closer_than(before.position, before.radius as int)
            &&& v.spec_strike_enemies(i).enemy_units.len() == v.enemy_units.len()
            &&& forall|k: int|
                0 <= k < v.enemy_units.len() && k != j ==> #[trigger] v.spec_strike_enemies(
                    i,
                ).enemy_units[k] == v.enemy_units[k]
            &&& after == before.spec_hit(p.rotation)
            &&& after.position == before.position
            &&& i64::MIN <= before.hit_points - crate::units::enemy_unit::ENEMY_DAMAGE
                ==> after.hit_points == before.hit_points - crate::units::enemy_unit::ENEMY_DAMAGE
            &&& before.rotation >= p.rotation && before.rotation
                + crate::units::enemy_unit::ENEMY_HIT_TURN <= i64::MAX ==> after.rotation
                == before.rotation + crate::units::enemy_unit::ENEMY_HIT_TURN
            &&& before.rotation < p.rotation && i64::MIN <= before.rotation
                - crate::units::enemy_unit::ENEMY_HIT_TURN ==> after.rotation == before.rotation
                - crate::units::enemy_unit::ENEMY_HIT_TURN
            &&& !v.spec_strike_enemies(i).projectiles[i].alive
            &&& v.spec_strike_enemies(i).projectiles[i].position == p.position
        }),
{
    lemma_first_struck_bounds(v.projectiles[i].position, v.enemy_units, 0);
}

/// A projectile that has struck an enemy is dead, and so strikes no other.
pub proof fn lemma_one_enemy_for_each_projectile(v: SceneView, i: int)
    requires
        0 <= i < v.projectiles.len(),
        v.spec_strikes_enemy(i),
    ensures
        !v.spec_strike_enemies(i).projectiles[i].alive,
        !v.spec_strike_enemies(i).spec_strikes_enemy(i),
        v.spec_strike_enemies(i).spec_strike_enemies(i) == v.spec_strike_enemies(i),
{
}

/// Every enemy moves against the swarm as it stood before any enemy
/// moved: the update neither adds nor removes an enemy, and the enemy at
/// each place is the one that stood there, updated with the player's
/// position and the whole swarm of before. Nothing else of the scene
/// changes.
pub proof fn lemma_enemies_move_against_the_snapshot(
    v: SceneView,
    pursuits: Seq<Pursuit>,
    directions: Seq<Direction>,
    i: int,
)
    requires
        0 <= i < v.enemy_units.len(),
    ensures
        v.spec_update_enemy_units(pursuits, directions).enemy_units.len() == v.enemy_units.len(),
        v.spec_update_enemy_units(pursuits, directions).enemy_units[i] == v.enemy_units[i].spec_update(
            v.dt as int,
            v.main_unit.position,
            v.enemy_units,
            i,
            pursuits[i].target,
            pursuits[i].peers@,
            directions[i],
        ),
        v.spec_update_enemy_units(pursuits, directions) == (SceneView {
            enemy_units: v.spec_update_enemy_units(pursuits, directions).enemy_units,
            ..v
        }),
{
}

/// Holding projectiles against the target neither adds nor removes one.
pub proof fn lemma_target_unit_hit_keeps_count(v: SceneView, screen: Vec2, upto: nat)
    requires
        upto <= v.projectiles.len(),
    ensures
        v.spec_target_unit_hit_upto(screen, upto).projectiles.len() == v.projectiles.len(),
        v.spec_target_unit_hit_upto(screen, upto).dt == v.dt,
    decreases upto,
{
    if upto > 0 {
        lemma_target_unit_hit_keeps_count(v, screen, (upto - 1) as nat);
    }
}

/// Holding projectiles against the enemies neither adds nor removes a
/// projectile or an enemy.
pub proof fn lemma_enemy_units_hit_keeps_count(v: SceneView, upto: nat)
    requires
        upto <= v.projectiles.len(),
    ensures
        v.spec_enemy_units_hit_upto(upto).projectiles.len() == v.projectiles.len(),
        v.spec_enemy_units_hit_upto(upto).enemy_units.len() == v.enemy_units.len(),
    decreases upto,
{
    if upto > 0 {
        lemma_enemy_units_hit_keeps_count(v, (upto - 1) as nat);
        let before = v.spec_enemy_units_hit_upto((upto - 1) as nat);
        lemma_first_struck_bounds(before.projectiles[upto - 1].position, before.enemy_units, 0);
    }
}

/// Whether `after` is the enemy `before` as hits leave it: with no more
/// hit points than before, turned perhaps, and else the same.
pub open spec fn spec_after_hits(after: EnemyUnit, before: EnemyUnit) -> bool {
    &&& after == (EnemyUnit { hit_points: after.hit_points, rotation: after.rotation, ..before })
    &&& after.hit_points <= before.hit_points
}

/// Whether `after` is the swarm `before` as hits leave it: no enemy
/// added, none removed, none at another place.
pub open spec fn spec_descends(after: Seq<EnemyUnit>, before: Seq<EnemyUnit>) -> bool {
    &&& after.len() == before.len()
    &&& forall|k: int| 0 <= k < before.len() ==> #[trigger] spec_after_hits(after[k], before[k])
}

/// Holding projectiles against the enemies leaves the swarm as hits leave
/// it, and the target and the player as they are.
pub proof fn lemma_enemy_units_hit_descends(v: SceneView, upto: nat)
    requires
        upto <= v.projectiles.len(),
    ensures
        spec_descends(v.spec_enemy_units_hit_upto(upto).enemy_units, v.enemy_units),
        v.spec_enemy_units_hit_upto(upto).target_unit == v.target_unit,
        v.spec_enemy_units_hit_upto(upto).main_unit == v.main_unit,
        v.spec_enemy_units_hit_upto(upto).projectiles.len() == v.projectiles.len(),
    decreases upto,
{
    if upto > 0 {
        lemma_enemy_units_hit_descends(v, (upto - 1) as nat);
        let before = v.spec_enemy_units_hit_upto((upto - 1) as nat);
        let after = before.spec_strike_enemies(upto - 1);
        lemma_first_struck_bounds(before.projectiles[upto - 1].position, before.enemy_units, 0);
        assert forall|k: int| 0 <= k < v.enemy_units.len() implies #[trigger] spec_after_hits(
            after.enemy_units[k],
            v.enemy_units[k],
        ) by {
            assert(spec_after_hits(before.enemy_units[k], v.enemy_units[k]));
        }
    }
}

/// Holding projectiles against the target leaves the swarm as it is, or
/// puts the four fresh enemies of the next encounter in its place. The
/// player stays as it is, and the target where it is.
pub proof fn lemma_target_unit_hit_enemies(v: SceneView, screen: Vec2, upto: nat)
    requires
        upto <= v.projectiles.len(),
    ensures
        v.spec_target_unit_hit_upto(screen, upto).enemy_units == v.enemy_units
            || v.spec_target_unit_hit_upto(screen, upto).enemy_units == v.spec_restart().enemy_units,
        v.spec_target_unit_hit_upto(screen, upto).target_unit.position == v.target_unit.position,
        v.spec_target_unit_hit_upto(screen, upto).sprites == v.sprites,
        v.spec_target_unit_hit_upto(screen, upto).settings == v.settings,
        v.spec_target_unit_hit_upto(screen, upto).main_unit == v.main_unit,
        v.spec_target_unit_hit_upto(screen, upto).projectiles.len() == v.projectiles.len(),
    decreases upto,
{
    if upto > 0 {
        lemma_target_unit_hit_enemies(v, screen, (upto - 1) as nat);
        let before = v.spec_target_unit_hit_upto(screen, (upto - 1) as nat);
        let i = upto - 1;
        let struck = SceneView {
            projectiles: before.projectiles.update(i, before.projectiles[i].spec_spent()),
            target_unit: before.target_unit.spec_update(
                true,
                TARGET_DAMAGE as int,
                before.projectiles[i].direction,
            ),
            ..before
        };
        assert(struck.spec_restart().enemy_units == v.spec_restart().enemy_units);
    }
}

/// The first enemy struck from `from` on has a place from `from` on, is
/// struck if it is an enemy at all, and no enemy between `from` and it is
/// struck.
pub proof fn lemma_first_struck_bounds(position: Vec2, enemies: Seq<EnemyUnit>, from: int)
    requires
        0 <= from <= enemies.len(),
    ensures
        from <= spec_first_struck(position, enemies, from) <= enemies.len(),
        spec_first_struck(position, enemies, from) < enemies.len() ==> position.spec_closer_than(
            enemies[spec_first_struck(position, enemies, from)].position,
            enemies[spec_first_struck(position, enemies, from)].radius as int,
        ),
        forall|k: int|
            from <= k < spec_first_struck(position, enemies, from) ==> !position.spec_closer_than(
                (#[trigger] enemies[k]).position,
                enemies[k].radius as int,
            ),
    decreases enemies.len() - from,
{
    if from < enemies.len() && !position.spec_closer_than(
        enemies[from].position,
        enemies[from].radius as int,
    ) {
        lemma_first_struck_bounds(position, enemies, from + 1);
    }
}

/// A copy of a list of plain values.
pub(crate) fn copied<T: Copy>(items: &Vec<T>) -> (copy: Vec<T>)
    ensures
        copy@ == items@,
{
    let mut copy: Vec<T> = Vec::new();
    let mut k: usize = 0;
    while k < items.len()
        invariant
            k <= items@.len(),
            copy@ == items@.take(k as int),
        decreases items@.len() - k,
    {
        copy.push(items[k]);
        assert(items@.take(k + 1) =~= items@.take(k as int).push(items@[k as int]));
        k += 1;
    }
    assert(items@.take(k as int) =~= items@);
    copy
}

impl Scene {
    /// Updates every enemy, if there is an answer for each: `pursuits`
    /// answers each enemy's `sight` of the player and of the swarm, and
    /// `directions` holds the sine and cosine of the heading that each
    /// enemy is `steered` to. Returns whether the answers fit; nothing
    /// changes if they do not.
    pub fn update_enemy_units(&mut self, pursuits: &Vec<Pursuit>, directions: &Vec<Direction>) -> (done:
        bool)
        ensures
            done == (spec_pursuits_fit(pursuits@, old(self)@.enemy_units.len())
                && directions@.len() == old(self)@.enemy_units.len()),
            done ==> final(self)@ == old(self)@.spec_update_enemy_units(pursuits@, directions@),
            !done ==> final(self)@ == old(self)@,
    {
        let count: usize = self.enemy_units.len();
        if !pursuits_fit(pursuits, count) || directions.len() != count {
            return false;
        }
        let before: Vec<EnemyUnit> = copied(&self.enemy_units);
        let target: Vec2 = self.main_unit.position;
        let dt: u32 = self.dt;
        let mut i: usize = 0;
        while i < count
            invariant
                i <= count,
                count == before@.len(),
                before@ == old(self)@.enemy_units,
                self.enemy_units@.len() == count,
                spec_pursuits_fit(pursuits@, count as nat),
                directions@.len() == count,
                target == old(self).main_unit.position,
                dt == old(self).dt,
                self@ == (SceneView { enemy_units: self.enemy_units@, ..old(self)@ }),
                forall|k: int|
                    0 <= k < i ==> #[trigger] self.enemy_units@[k] == old(self)@.spec_enemy_updated(
                        k,
                        pursuits@,
                        directions@,
                    ),
                forall|k: int| i <= k < count ==> #[trigger] self.enemy_units@[k] == before@[k],
            decreases count - i,
        {
            let mut unit: EnemyUnit = self.enemy_units[i];
            unit.update(
                dt,
                target,
                &before,
                i,
                pursuits[i].target,
                &pursuits[i].peers,
                directions[i],
            );
            self.enemy_units.set(i, unit);
            i += 1;
        }
        assert(self.enemy_units@ =~= old(self)@.spec_update_enemy_units(
            pursuits@,
            directions@,
        ).enemy_units);
        true
    }

    /// Holds every projectile against the target, in the order of the
    /// scene, and lets those that miss fly on across a screen of the size
    /// `screen`.
    pub fn target_unit_hit(&mut self, screen: Vec2, cues: &mut Vec<Cue>)
        ensures
            final(self)@ == old(self)@.spec_target_unit_hit(screen),
            final(cues)@ == old(cues)@ + old(self)@.spec_target_unit_hit_cues(screen),
    {
        let count: usize = self.projectiles.len();
        let mut i: usize = 0;
        while i < count
            invariant
                i <= count,
                count == old(self)@.projectiles.len(),
                self.projectiles@.len() == count,
                self@ == old(self)@.spec_target_unit_hit_upto(screen, i as nat),
                cues@ == old(cues)@ + old(self)@.spec_target_unit_hit_cues_upto(screen, i as nat),
            decreases count - i,
        {
            let ghost here = self@;
            let mut p: Projectile = self.projectiles[i];
            if p.alive && p.position.within(self.target_unit.position, self.target_unit.radius) {
                p.alive = false;
                self.projectiles.set(i, p);
                let cue = self.target_unit.update(true, TARGET_DAMAGE, p.direction);
                match cue {
                    Some(cue) => {
                        cues.push(cue);
                    },
                    None => {},
                }
                if self.target_unit.hit_points <= RESTART_FLOOR {
                    self.restart();
                }
            } else {
                p.update(self.dt, screen);
                self.projectiles.set(i, p);
            }
            assert(self@ == here.spec_strike_target(i as int, screen));
            i += 1;
        }
    }

    /// Holds every live projectile against the enemies, in the order of
    /// the scene.
    pub fn enemy_units_hit(&mut self, cues: &mut Vec<Cue>)
        ensures
            final(self)@ == old(self)@.spec_enemy_units_hit(),
            final(cues)@ == old(cues)@ + old(self)@.spec_enemy_units_hit_cues(),
    {
        let count: usize = self.projectiles.len();
        let mut i: usize = 0;
        while i < count
            invariant
                i <= count,
                count == old(self)@.projectiles.len(),
                self.projectiles@.len() == count,
                self@ == old(self)@.spec_enemy_units_hit_upto(i as nat),
                cues@ == old(cues)@ + old(self)@.spec_enemy_units_hit_cues_upto(i as nat),
            decreases count - i,
        {
            let ghost here = self@;
            let mut p: Projectile = self.projectiles[i];
            if p.alive {
                let j: usize = self.first_struck(p.position);
                if j < self.enemy_units.len() {
                    let mut unit: EnemyUnit = self.enemy_units[j];
                    unit.hit(p.rotation);
                    self.enemy_units.set(j, unit);
                    p.alive = false;
                    self.projectiles.set(i, p);
                    cues.push(Cue::EnemyImpact);
                }
            }
            assert(self@ == here.spec_strike_enemies(i as int));
            i += 1;
        }
    }

    /// The place of the first enemy that a projectile at `position`
    /// strikes; the number of enemies if it strikes none.
    pub fn first_struck(&self, position: Vec2) -> (j: usize)
        ensures
            j == spec_first_struck(position, self@.enemy_units, 0),
            j <= self@.enemy_units.len(),
    {
        let mut j: usize = 0;
        while j < self.enemy_units.len()
            invariant
                j <= self.enemy_units@.len(),
                spec_first_struck(position, self.enemy_units@, 0) == spec_first_struck(
                    position,
                    self.enemy_units@,
                    j as int,
                ),
            decreases self.enemy_units@.len() - j,
        {
            if position.closer_than(self.enemy_units[j].position, self.enemy_units[j].radius) {
                return j;
            }
            j += 1;
        }
        j
    }
}

} // verus!
