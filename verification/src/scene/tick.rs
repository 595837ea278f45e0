//! The tick: one call advances the whole scene.
//!
//! The scene cannot measure an angle. Before a tick the caller asks it for
//! the offsets whose arctangents the tick takes, then for the headings whose
//! sines and cosines it takes, and hands the answers to `update`.

use vstd::prelude::*;
use crate::angle::spec_offsets;
use crate::cue::Cue;
use crate::geometry::{Direction, Vec2};
use crate::scene::combat::{
    copied, lemma_enemy_units_hit_descends, lemma_filter_step, lemma_pruned,
    lemma_target_unit_hit_enemies, pursuits_fit, spec_descends, spec_enemy_kept,
    spec_pursuits_fit,
};
use crate::scene::{
    BearingQueries, Bearings, HeadingQueries, Headings, Input, Pursuit, Remote, Scene, SceneView,
};
use crate::units::enemy_unit::{EnemyUnit, Sight};

verus! {

/// What a tick leaves for the caller to do.
pub struct Outcome {
    /// The sounds to play, in the order in which they arose.
    pub cues: Vec<Cue>,
    /// Whether a commanded shot was taken from the command channel, whose
    /// command field is then to be cleared.
    pub clear_command: bool,
}

/// Whether `sight` holds the offsets that an enemy at `me` asks for: to
/// `target` and to each of `units`.
pub open spec fn spec_sight_of(sight: Sight, me: Vec2, target: Vec2, units: Seq<EnemyUnit>) -> bool {
    &&& sight.target == spec_offsets(me, target)
    &&& sight.peers@.len() == units.len()
    &&& forall|j: int|
        0 <= j < units.len() ==> sight.peers@[j] == spec_offsets(me, (#[trigger] units[j]).position)
}

impl SceneView {
    /// The scene when the enemies are about to move: the tick has begun,
    /// the player has been advanced and has fired, and the enemies without
    /// hit points are gone.
    pub open spec fn spec_before_enemies(
        self,
        input: Input,
        remote: Option<Remote>,
        principal: i64,
        direction: Direction,
    ) -> SceneView {
        self.spec_begin_tick(input, remote).spec_main_unit_shoot(
            input,
            principal,
            direction,
        ).spec_remove_dead_enemy_units()
    }

    /// The number of enemies that a tick moves: those with hit points
    /// left.
    pub open spec fn spec_enemies_left(self) -> nat {
        self.enemy_units.filter(spec_enemy_kept()).len()
    }

    /// Whether the arctangents fit the scene: there are answers for each
    /// enemy that is left.
    pub open spec fn spec_bearings_fit(self, bearings: Bearings) -> bool {
        spec_pursuits_fit(bearings.enemies@, self.spec_enemies_left())
    }

    /// Whether all the answers fit the scene.
    pub open spec fn spec_answers_fit(self, bearings: Bearings, headings: Headings) -> bool {
        self.spec_bearings_fit(bearings) && headings.enemies@.len() == self.spec_enemies_left()
    }

    /// The scene after a tick, in the order that a tick keeps: the tick
    /// begins; the player is advanced and fires; the enemies without hit
    /// points are removed; the enemies move; the projectiles that are dead
    /// or out of range are removed; the projectiles are held against the
    /// target, and those that miss it fly on; the projectiles are held
    /// against the enemies.
    pub open spec fn spec_update(
        self,
        input: Input,
        remote: Option<Remote>,
        bearings: Bearings,
        headings: Headings,
    ) -> SceneView {
        self.spec_pruned(input, remote, bearings, headings).spec_target_unit_hit(
            input.screen,
        ).spec_enemy_units_hit()
    }

    /// The scene of a tick when the hits are about to be resolved.
    pub open spec fn spec_pruned(
        self,
        input: Input,
        remote: Option<Remote>,
        bearings: Bearings,
        headings: Headings,
    ) -> SceneView {
        self.spec_before_enemies(
            input,
            remote,
            bearings.aim,
            headings.main_unit,
        ).spec_update_enemy_units(
            bearings.enemies@,
            headings.enemies@,
        ).spec_remove_projectile_out_of_range()
    }

    /// The sounds of a tick: the shot, then the blows on the target, then
    /// the blows on the enemies.
    pub open spec fn spec_update_cues(
        self,
        input: Input,
        remote: Option<Remote>,
        bearings: Bearings,
        headings: Headings,
    ) -> Seq<Cue> {
        let pruned = self.spec_pruned(input, remote, bearings, headings);
        let shot = if self.spec_begin_tick(input, remote).spec_fires(input) {
            seq![Cue::Shot]
        } else {
            Seq::empty()
        };
        shot + pruned.spec_target_unit_hit_cues(input.screen) + pruned.spec_target_unit_hit(
            input.screen,
        ).spec_enemy_units_hit_cues()
    }

    /// Where the enemies of a tick see the player: where it stands after
    /// it has moved.
    pub open spec fn spec_chased(self, input: Input, remote: Option<Remote>) -> Vec2 {
        let begun = self.spec_begin_tick(input, remote);
        begun.main_unit.spec_update_position(
            begun.dt as int,
            begun.command,
            input.trigger,
        ).position
    }

    /// The heading that the player has when it fires in a tick.
    pub open spec fn spec_player_heading(self, input: Input, remote: Option<Remote>, principal: i64) -> i64 {
        let begun = self.spec_begin_tick(input, remote);
        begun.main_unit.spec_update(
            begun.dt as int,
            begun.spec_aim_point(input.pointer),
            begun.command,
            input.trigger,
            principal,
        ).rotation
    }

    /// The heading that a tick steers the enemy at `k` to, of those that
    /// are left.
    pub open spec fn spec_enemy_heading(
        self,
        k: int,
        input: Input,
        remote: Option<Remote>,
        pursuits: Seq<Pursuit>,
    ) -> i64 {
        let left = self.enemy_units.filter(spec_enemy_kept());
        left[k].spec_steered(
            input.dt as int,
            self.spec_chased(input, remote),
            left,
            k,
            pursuits[k].target,
            pursuits[k].peers@,
        )
    }
}

/// What the queries ask for is what the tick takes: when the enemies are
/// about to move, the player stands where they were told to chase it and is
/// headed as `heading_queries` said, whatever sine and cosine it was handed,
/// and the enemies are those that had hit points left.
pub proof fn lemma_queries_meet_the_player(
    v: SceneView,
    input: Input,
    remote: Option<Remote>,
    principal: i64,
    direction: Direction,
)
    ensures
        v.spec_before_enemies(input, remote, principal, direction).main_unit.position
            == v.spec_chased(input, remote),
        v.spec_before_enemies(input, remote, principal, direction).main_unit.rotation
            == v.spec_player_heading(input, remote, principal),
        v.spec_before_enemies(input, remote, principal, direction).enemy_units
            == v.enemy_units.filter(spec_enemy_kept()),
        v.spec_before_enemies(input, remote, principal, direction).dt == input.dt,
{
}

/// What the queries ask for is what the tick takes: the tick steers each
/// enemy to the heading that `heading_queries` said, whatever sine and
/// cosine it was handed.
pub proof fn lemma_queries_meet_the_enemies(
    v: SceneView,
    input: Input,
    remote: Option<Remote>,
    bearings: Bearings,
    headings: Headings,
    k: int,
)
    requires
        0 <= k < v.spec_enemies_left(),
    ensures
        v.spec_before_enemies(
            input,
            remote,
            bearings.aim,
            headings.main_unit,
        ).spec_update_enemy_units(bearings.enemies@, headings.enemies@).enemy_units[k].rotation
            == v.spec_enemy_heading(k, input, remote, bearings.enemies@),
{
    lemma_queries_meet_the_player(v, input, remote, bearings.aim, headings.main_unit);
}

/// Nothing but a hit changes hit points: when the hits of a tick are about
/// to be resolved, the target and each enemy that was left have the hit
/// points they had before the tick.
pub proof fn lemma_only_hits_change_hit_points(
    v: SceneView,
    input: Input,
    remote: Option<Remote>,
    bearings: Bearings,
    headings: Headings,
)
    ensures
        v.spec_pruned(input, remote, bearings, headings).target_unit.hit_points
            == v.target_unit.hit_points,
        v.spec_pruned(input, remote, bearings, headings).target_unit.alive == v.target_unit.alive,
        v.spec_pruned(input, remote, bearings, headings).enemy_units.len() == v.spec_enemies_left(),
        forall|k: int|
            0 <= k < v.spec_enemies_left() ==> (#[trigger] v.spec_pruned(
                input,
                remote,
                bearings,
                headings,
            ).enemy_units[k]).hit_points == v.enemy_units.filter(spec_enemy_kept())[k].hit_points,
{
    lemma_queries_meet_the_player(v, input, remote, bearings.aim, headings.main_unit);
}

/// What a whole tick does to the swarm. The enemies that had no hit
/// points when the tick began are gone before any enemy moves, and the
/// others move in their order, each against the others as they stood. The
/// hits then leave each of them at its place, with no more hit points than
/// it had, unless the target has fallen: then the four fresh enemies of the
/// next encounter stand in their place, as hits leave them. An enemy that a
/// hit has left without hit points is still in the scene after the tick,
/// and gone when the next tick lets the enemies move.
pub proof fn lemma_tick_keeps_the_living(
    v: SceneView,
    input: Input,
    remote: Option<Remote>,
    bearings: Bearings,
    headings: Headings,
)
    ensures
        ({
            let left = v.enemy_units.filter(spec_enemy_kept());
            let moved = v.spec_pruned(input, remote, bearings, headings).enemy_units;
            let after = v.spec_update(input, remote, bearings, headings).enemy_units;
            &&& left.len() <= v.enemy_units.len()
            &&& forall|k: int| 0 <= k < left.len() ==> (#[trigger] left[k]).hit_points > 0
            &&& moved.len() == left.len()
            &&& forall|k: int|
                0 <= k < left.len() ==> #[trigger] moved[k] == left[k].spec_update(
                    input.dt as int,
                    v.spec_chased(input, remote),
                    left,
                    k,
                    bearings.enemies@[k].target,
                    bearings.enemies@[k].peers@,
                    headings.enemies@[k],
                )
            &&& spec_descends(after, moved) || spec_descends(after, v.spec_restart().enemy_units)
        }),
{
    lemma_pruned(v);
    lemma_queries_meet_the_player(v, input, remote, bearings.aim, headings.main_unit);
    let pruned = v.spec_pruned(input, remote, bearings, headings);
    lemma_target_unit_hit_enemies(pruned, input.screen, pruned.projectiles.len());
    let struck = pruned.spec_target_unit_hit(input.screen);
    lemma_enemy_units_hit_descends(struck, struck.projectiles.len());
    assert(pruned.spec_restart().enemy_units == v.spec_restart().enemy_units);
}

impl Scene {
    /// A copy of the scene.
    pub fn duplicate(&self) -> (copy: Scene)
        ensures
            copy@ == self@,
    {
        Scene {
            main_unit: self.main_unit,
            target_unit: self.target_unit,
            enemy_units: copied(&self.enemy_units),
            projectiles: copied(&self.projectiles),
            dt: self.dt,
            sprites: self.sprites,
            settings: self.settings,
            command: self.command,
            tick: self.tick,
            target_point: self.target_point,
        }
    }

    /// The number of enemies with hit points left.
    pub fn enemies_left(&self) -> (count: usize)
        ensures
            count == self@.spec_enemies_left(),
    {
        let mut count: usize = 0;
        let mut i: usize = 0;
        while i < self.enemy_units.len()
            invariant
                i <= self.enemy_units@.len(),
                count <= i,
                count == self.enemy_units@.take(i as int).filter(spec_enemy_kept()).len(),
            decreases self.enemy_units@.len() - i,
        {
            proof {
                lemma_filter_step(self.enemy_units@, spec_enemy_kept(), i as int);
            }
            if self.enemy_units[i].kept() {
                count += 1;
            }
            i += 1;
        }
        assert(self.enemy_units@.take(i as int) =~= self.enemy_units@);
        count
    }

    /// The offsets whose arctangents the next tick takes, for the given
    /// input: the player's aim, and the sight of each enemy that is left.
    pub fn bearing_queries(&self, input: &Input, remote: &Option<Remote>) -> (queries: BearingQueries)
        ensures
            queries.aim == self@.spec_begin_tick(*input, *remote).spec_aim(*input),
            queries.aim.x != 0,
            queries.enemies@.len() == self@.spec_enemies_left(),
            forall|k: int|
                0 <= k < self@.spec_enemies_left() ==> spec_sight_of(
                    #[trigger] queries.enemies@[k],
                    self@.enemy_units.filter(spec_enemy_kept())[k].position,
                    self@.spec_chased(*input, *remote),
                    self@.enemy_units.filter(spec_enemy_kept()),
                ),
    {
        let mut scene = self.duplicate();
        scene.begin_tick(input, remote);
        let target_point = scene.aim_point(input.pointer);
        let aim = scene.main_unit.aim(scene.dt, target_point, &scene.command, input.trigger);
        let mut player = scene.main_unit;
        player.update_position(scene.dt, &scene.command, input.trigger);
        scene.remove_dead_enemy_units();
        let mut enemies: Vec<Sight> = Vec::new();
        let mut k: usize = 0;
        while k < scene.enemy_units.len()
            invariant
                k <= scene.enemy_units@.len(),
                enemies@.len() == k,
                forall|j: int|
                    0 <= j < k ==> spec_sight_of(
                        #[trigger] enemies@[j],
                        scene.enemy_units@[j].position,
                        player.position,
                        scene.enemy_units@,
                    ),
            decreases scene.enemy_units@.len() - k,
        {
            let sight = scene.enemy_units[k].sight(player.position, &scene.enemy_units);
            enemies.push(sight);
            k += 1;
        }
        BearingQueries { aim, enemies }
    }

    /// The headings whose sines and cosines the next tick takes, for the
    /// given input and arctangents: the player's, and that of each enemy
    /// that is left. There is no answer if the arctangents do not fit the
    /// scene.
    pub fn heading_queries(&self, input: &Input, remote: &Option<Remote>, bearings: &Bearings) -> (queries:
        Option<HeadingQueries>)
        ensures
            queries.is_some() == self@.spec_bearings_fit(*bearings),
            queries.is_some() ==> {
                let asked = queries.unwrap();
                &&& asked.main_unit == self@.spec_player_heading(*input, *remote, bearings.aim)
                &&& asked.enemies@.len() == self@.spec_enemies_left()
                &&& forall|k: int|
                    0 <= k < self@.spec_enemies_left() ==> #[trigger] asked.enemies@[k]
                        == self@.spec_enemy_heading(k, *input, *remote, bearings.enemies@)
            },
    {
        if !pursuits_fit(&bearings.enemies, self.enemies_left()) {
            return None;
        }
        let mut scene = self.duplicate();
        scene.begin_tick(input, remote);
        let target_point = scene.aim_point(input.pointer);
        let mut player = scene.main_unit;
        let mut command = scene.command;
        player.update(scene.dt, target_point, &mut command, input.trigger, bearings.aim);
        scene.remove_dead_enemy_units();
        let mut enemies: Vec<i64> = Vec::new();
        let mut k: usize = 0;
        while k < scene.enemy_units.len()
            invariant
                k <= scene.enemy_units@.len(),
                enemies@.len() == k,
                spec_pursuits_fit(bearings.enemies@, scene.enemy_units@.len()),
                forall|j: int|
                    0 <= j < k ==> #[trigger] enemies@[j] == scene.enemy_units@[j].spec_steered(
                        scene.dt as int,
                        player.position,
                        scene.enemy_units@,
                        j,
                        bearings.enemies@[j].target,
                        bearings.enemies@[j].peers@,
                    ),
            decreases scene.enemy_units@.len() - k,
        {
            let heading = scene.enemy_units[k].steered(
                scene.dt,
                player.position,
                &scene.enemy_units,
                k,
                bearings.enemies[k].target,
                &bearings.enemies[k].peers,
            );
            enemies.push(heading);
            k += 1;
        }
        Some(HeadingQueries { main_unit: player.rotation, enemies })
    }

    /// Advances the scene by one tick. `remote` is what was read from the
    /// command channel if `channel_due` asked for it, `bearings` answers
    /// `bearing_queries` and `headings` answers `heading_queries`, both
    /// made for the same input. If the answers do not fit the scene,
    /// nothing changes and nothing is returned.
    pub fn update(
        &mut self,
        input: &Input,
        remote: &Option<Remote>,
        bearings: &Bearings,
        headings: &Headings,
    ) -> (outcome: Option<Outcome>)
        ensures
            outcome.is_some() == old(self)@.spec_answers_fit(*bearings, *headings),
            outcome.is_none() ==> final(self)@ == old(self)@,
            outcome.is_some() ==> {
                &&& final(self)@ == old(self)@.spec_update(*input, *remote, *bearings, *headings)
                &&& outcome.unwrap().cues@ == old(self)@.spec_update_cues(
                    *input,
                    *remote,
                    *bearings,
                    *headings,
                )
                &&& outcome.unwrap().clear_command == old(self)@.spec_consumes(*remote)
            },
    {
        let left: usize = self.enemies_left();
        if !pursuits_fit(&bearings.enemies, left) || headings.enemies.len() != left {
            return None;
        }
        let mut cues: Vec<Cue> = Vec::new();
        let clear_command = self.begin_tick(input, remote);
        self.main_unit_shoot(input, bearings.aim, headings.main_unit, &mut cues);
        self.remove_dead_enemy_units();
        let done = self.update_enemy_units(&bearings.enemies, &headings.enemies);
        assert(done);
        self.remove_projectile_out_of_range();
        self.target_unit_hit(input.screen, &mut cues);
        self.enemy_units_hit(&mut cues);
        Some(Outcome { cues, clear_command })
    }
}

} // verus!
