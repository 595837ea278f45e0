//! The scene: it owns every entity and advances all of them by one tick at
//! a time.

pub mod combat;
pub mod control;
pub mod lifecycle;
pub mod report;
pub mod tick;

use vstd::prelude::*;
use crate::command::Command;
use crate::geometry::{Direction, Vec2};
use crate::units::enemy_unit::{EnemyUnit, Sight};
use crate::units::main_unit::MainUnit;
use crate::units::projectile::Projectile;
use crate::units::target_unit::TargetUnit;

verus! {

/// The values that tune the simulation.
#[derive(Clone, Copy, Debug, PartialEq, Eq, Structural)]
pub struct Settings {
    /// Units the player moves per second.
    pub main_unit_speed: i64,
    /// The least time between two shots of the player.
    pub main_unit_shoot_delay: i64,
    /// How far a projectile flies.
    pub main_unit_shoot_range: i64,
    /// Units an enemy walks per second.
    pub enemy_unit_speed: i64,
    /// Degrees an enemy turns per second.
    pub enemy_unit_rotation_speed: i64,
}

/// The sizes of the sprites that the entities are drawn with.
#[derive(Clone, Copy, Debug, PartialEq, Eq, Structural)]
pub struct Sprites {
    pub main_unit: Vec2,
    pub target_unit: Vec2,
    pub enemy_unit: Vec2,
    pub projectile: Vec2,
}

/// What was read of the outside world at the start of a tick.
#[derive(Clone, Copy, Debug, PartialEq, Eq, Structural)]
pub struct Input {
    /// The time since the last tick.
    pub dt: u32,
    pub left: bool,
    pub right: bool,
    pub up: bool,
    pub down: bool,
    /// Whether the trigger is held.
    pub trigger: bool,
    /// Where the pointer is.
    pub pointer: Vec2,
    /// The size of the screen.
    pub screen: Vec2,
}

/// What was read from the command channel.
#[derive(Clone, Copy, Debug, PartialEq, Eq, Structural)]
pub struct Remote {
    /// Whether the channel commands a shot.
    pub shoot: bool,
    /// The point to aim the commanded shot at, as far as it could be read.
    pub target_point_x: Option<i64>,
    pub target_point_y: Option<i64>,
    /// The heading for a forced aim, if one could be read.
    pub rotation: Option<i64>,
}

/// The answers to one enemy's `Sight`: the principal arctangent of the
/// slope of each offset.
pub struct Pursuit {
    pub target: i64,
    pub peers: Vec<i64>,
}

/// The offsets whose arctangents a tick needs.
pub struct BearingQueries {
    /// From the point the player aims at to the player.
    pub aim: Vec2,
    /// One for each enemy that is left.
    pub enemies: Vec<Sight>,
}

/// The answers to `BearingQueries`.
pub struct Bearings {
    pub aim: i64,
    pub enemies: Vec<Pursuit>,
}

/// The headings whose sines and cosines a tick needs.
pub struct HeadingQueries {
    pub main_unit: i64,
    /// One for each enemy that is left.
    pub enemies: Vec<i64>,
}

/// The answers to `HeadingQueries`.
pub struct Headings {
    pub main_unit: Direction,
    pub enemies: Vec<Direction>,
}

/// The scene.
pub struct Scene {
    pub main_unit: MainUnit,
    pub target_unit: TargetUnit,
    pub enemy_units: Vec<EnemyUnit>,
    pub projectiles: Vec<Projectile>,
    /// The time step of the tick before.
    pub dt: u32,
    pub sprites: Sprites,
    pub settings: Settings,
    pub command: Command,
    /// The time since the command channel was last read.
    pub tick: i64,
    /// The point that a commanded shot aims at; the pointer is aimed at
    /// while this is the origin.
    pub target_point: Vec2,
}

/// A scene as a value: the entities in sequences.
pub struct SceneView {
    pub main_unit: MainUnit,
    pub target_unit: TargetUnit,
    pub enemy_units: Seq<EnemyUnit>,
    pub projectiles: Seq<Projectile>,
    pub dt: u32,
    pub sprites: Sprites,
    pub settings: Settings,
    pub command: Command,
    pub tick: i64,
    pub target_point: Vec2,
}

impl View for Scene {
    type V = SceneView;

    open spec fn view(&self) -> SceneView {
        SceneView {
            main_unit: self.main_unit,
            target_unit: self.target_unit,
            enemy_units: self.enemy_units@,
            projectiles: self.projectiles@,
            dt: self.dt,
            sprites: self.sprites,
            settings: self.settings,
            command: self.command,
            tick: self.tick,
            target_point: self.target_point,
        }
    }
}

} // verus!
