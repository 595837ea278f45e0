//! What the player is asked to do in a tick.

use vstd::prelude::*;
use crate::geometry::Vec2;

verus! {

/// The player's intent for a tick: where to move, whether to shoot, and
/// the heading to take while it aims by itself.
#[derive(Clone, Copy, Debug, PartialEq, Eq, Structural)]
pub struct Command {
    /// The movement asked for: each part is minus one, zero or one.
    pub wasd: Vec2,
    /// Whether a shot is asked for. The player's firing cadence reads and
    /// writes it.
    pub shoot: bool,
    /// The heading that a forced aim turns the player to.
    pub rotation: i64,
}

impl Command {
    /// No movement, no shot, heading zero.
    pub fn new() -> (command: Command)
        ensures
            command == (Command { wasd: Vec2 { x: 0, y: 0 }, shoot: false, rotation: 0 }),
    {
        Command { wasd: Vec2 { x: 0, y: 0 }, shoot: false, rotation: 0 }
    }

    /// Whether any movement is asked for.
    pub open spec fn spec_moving(self) -> bool {
        self.wasd.x != 0 || self.wasd.y != 0
    }

    /// Whether any movement is asked for.
    pub fn moving(&self) -> (r: bool)
        ensures
            r == self.spec_moving(),
    {
        self.wasd.x != 0 || self.wasd.y != 0
    }
}

} // verus!
