//! The sounds that a tick asks for.

use vstd::prelude::*;

verus! {

/// A sound to play. The simulation names it; the caller plays it.
#[derive(Clone, Copy, Debug, PartialEq, Eq, Structural)]
pub enum Cue {
    /// The player has fired.
    Shot,
    /// A projectile has struck the target. The blow sounds fainter on a
    /// target that is dead.
    TargetImpact { alive: bool },
    /// A projectile has struck an enemy.
    EnemyImpact,
}

} // verus!
