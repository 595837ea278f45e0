//! How an encounter starts and starts again.

use vstd::prelude::*;
use crate::command::Command;
use crate::fixed::{product, spec_product, spec_sum, sum, HALF};
use crate::geometry::Vec2;
use crate::scene::{Scene, SceneView, Settings, Sprites};
use crate::units::enemy_unit::EnemyUnit;
use crate::units::main_unit::MainUnit;
use crate::units::target_unit::TargetUnit;

verus! {

/// How far down the screen the player starts: 0.8 of its height.
pub const SPAWN_DEPTH: i64 = 800_000;

/// How far down the screen the target stands: 160 units.
pub const TARGET_DEPTH: i64 = 160_000_000;

/// The time since the command channel was read that a new scene starts
/// with: long enough for the first tick to read it.
pub const FIRST_TICK: i64 = 1_000_000_000;

/// Where the nearer enemy of each side starts, left or right of the
/// target: 100 units.
pub const NEAR_SPAWN: i64 = 100_000_000;

/// Where the farther enemy of each side starts: 200 units.
pub const FAR_SPAWN: i64 = 200_000_000;

impl SceneView {
    /// The scene with one more enemy, fresh, at the offset `(dx, dy)` from
    /// the target.
    pub open spec fn spec_spawn_single_enemy_unit(self, dx: i64, dy: i64) -> SceneView {
        SceneView {
            enemy_units: self.enemy_units.push(
                EnemyUnit::spec_new(
                    self.sprites.enemy_unit,
                    Vec2 {
                        x: spec_sum(self.target_unit.position.x as int, dx as int),
                        y: spec_sum(self.target_unit.position.y as int, dy as int),
                    },
                    self.settings.enemy_unit_speed,
                    self.settings.enemy_unit_rotation_speed,
                ),
            ),
            ..self
        }
    }

    /// The scene with the four enemies of an encounter added: two to the
    /// left of the target, then two to the right.
    pub open spec fn spec_start(self) -> SceneView {
        self.spec_spawn_single_enemy_unit(-NEAR_SPAWN as i64, 0).spec_spawn_single_enemy_unit(
            -FAR_SPAWN as i64,
            0,
        ).spec_spawn_single_enemy_unit(NEAR_SPAWN, 0).spec_spawn_single_enemy_unit(FAR_SPAWN, 0)
    }

    /// The scene as the next encounter starts: the enemies that were left
    /// are gone, the target is whole, and four fresh enemies stand around
    /// it. The player and the projectiles are as they were.
    pub open spec fn spec_restart(self) -> SceneView {
        (SceneView {
            enemy_units: Seq::empty(),
            target_unit: self.target_unit.spec_reset(),
            ..self
        }).spec_start()
    }

    /// The scene that `Scene::new` makes.
    pub open spec fn spec_new(settings: Settings, sprites: Sprites, screen: Vec2, pointer: Vec2, dt: u32) -> SceneView {
        (SceneView {
            main_unit: MainUnit::spec_new(
                sprites.main_unit,
                Vec2 {
                    x: spec_product(screen.x as int, HALF as int),
                    y: spec_product(screen.y as int, SPAWN_DEPTH as int),
                },
                settings.main_unit_speed,
                settings.main_unit_shoot_delay,
                settings.main_unit_shoot_range,
            ),
            target_unit: TargetUnit::spec_new(
                sprites.target_unit,
                Vec2 { x: spec_product(screen.x as int, HALF as int), y: TARGET_DEPTH },
            ),
            enemy_units: Seq::empty(),
            projectiles: Seq::empty(),
            dt,
            sprites,
            settings,
            command: Command { wasd: Vec2 { x: 0, y: 0 }, shoot: false, rotation: 0 },
            tick: FIRST_TICK,
            target_point: pointer,
        }).spec_start()
    }
}

impl Scene {
    /// The scene at the start of the first encounter, on a screen of the
    /// size `screen`: the player low on the middle line, the target high on
    /// it, four enemies around the target and no projectile.
    pub fn new(settings: Settings, sprites: Sprites, screen: Vec2, pointer: Vec2, dt: u32) -> (scene:
        Scene)
        ensures
            scene@ == SceneView::spec_new(settings, sprites, screen, pointer, dt),
    {
        let spawn_position = Vec2 { x: product(screen.x, HALF), y: product(screen.y, SPAWN_DEPTH) };
        let target_unit_position = Vec2 { x: product(screen.x, HALF), y: TARGET_DEPTH };
        let mut scene = Scene {
            main_unit: MainUnit::new(
                sprites.main_unit,
                spawn_position,
                settings.main_unit_speed,
                settings.main_unit_shoot_delay,
                settings.main_unit_shoot_range,
            ),
            target_unit: TargetUnit::new(sprites.target_unit, target_unit_position),
            enemy_units: Vec::new(),
            projectiles: Vec::new(),
            dt,
            sprites,
            settings,
            command: Command::new(),
            tick: FIRST_TICK,
            target_point: pointer,
        };
        scene.start();
        scene
    }

    /// Adds the four enemies of an encounter.
    pub fn start(&mut self)
        ensures
            final(self)@ == old(self)@.spec_start(),
    {
        self.spawn_single_enemy_unit(-NEAR_SPAWN, 0);
        self.spawn_single_enemy_unit(-FAR_SPAWN, 0);
        self.spawn_single_enemy_unit(NEAR_SPAWN, 0);
        self.spawn_single_enemy_unit(FAR_SPAWN, 0);
    }

    /// Starts the next encounter.
    pub fn restart(&mut self)
        ensures
            final(self)@ == old(self)@.spec_restart(),
    {
        self.enemy_units = Vec::new();
        self.target_unit.reset();
        self.start();
    }

    /// Adds a fresh enemy at the offset `(dx, dy)` from the target.
    pub fn spawn_single_enemy_unit(&mut self, dx: i64, dy: i64)
        ensures
            final(self)@ == old(self)@.spec_spawn_single_enemy_unit(dx, dy),
    {
        let position = Vec2 {
            x: sum(self.target_unit.position.x, dx),
            y: sum(self.target_unit.position.y, dy),
        };
        let unit = EnemyUnit::new(
            self.sprites.enemy_unit,
            position,
            self.settings.enemy_unit_speed,
            self.settings.enemy_unit_rotation_speed,
        );
        self.enemy_units.push(unit);
    }
}

/// An encounter starts with exactly four enemies, at 100 and 200 units to
/// the left and to the right of the target, and with a target that is whole
/// and alive, whatever the scene was before.
pub proof fn lemma_restart(v: SceneView)
    ensures
        v.spec_restart().enemy_units.len() == 4,
        v.spec_restart().target_unit.hit_points == crate::units::target_unit::TARGET_HIT_POINTS,
        v.spec_restart().target_unit.alive,
        v.spec_restart().target_unit.position == v.target_unit.position,
        v.spec_restart().main_unit == v.main_unit,
        v.spec_restart().projectiles == v.projectiles,
        forall|k: int|
            0 <= k < 4 ==> {
                let unit = #[trigger] v.spec_restart().enemy_units[k];
                &&& unit.hit_points == crate::units::enemy_unit::ENEMY_HIT_POINTS
                &&& unit.alive
                &&& unit.position.y == v.target_unit.position.y
                &&& unit.position.x == spec_sum(
                    v.target_unit.position.x as int,
                    spec_spawn_offset(k),
                )
            },
{
}

/// The horizontal offsets from the target at which the enemies of an
/// encounter start, in the order of their places in the scene.
pub open spec fn spec_spawn_offset(k: int) -> int {
    if k == 0 {
        -NEAR_SPAWN
    } else if k == 1 {
        -FAR_SPAWN
    } else if k == 2 {
        NEAR_SPAWN as int
    } else {
        FAR_SPAWN as int
    }
}

} // verus!
