//! The entities of the simulation.

pub mod enemy_unit;
pub mod main_unit;
pub mod projectile;
pub mod target_unit;
