//! The player's unit: it moves as asked, aims at a point and fires at a
//! bounded rate.

use vstd::prelude::*;
use crate::angle::{offset, offsets, spec_offset, spec_offsets, QUARTER_TURN};
use crate::command::Command;
use crate::fixed::{difference, product, spec_difference, spec_product, spec_sum, sum};
use crate::geometry::Vec2;

verus! {

/// Three quarters of a turn, 270 degrees.
pub const THREE_QUARTER_TURN: i64 = 270_000_000;

/// The player's unit.
#[derive(Clone, Copy, Debug, PartialEq, Eq, Structural)]
pub struct MainUnit {
    /// The size of the sprite.
    pub size: Vec2,
    pub rotation: i64,
    pub position: Vec2,
    /// Units moved per second.
    pub speed: i64,
    /// The time since the last shot.
    pub shoot_timer: i64,
    /// The least time between two shots.
    pub shoot_delay: i64,
    /// How far a projectile flies.
    pub shoot_range: i64,
    /// Whether the heading is dictated by the command instead of the aim.
    pub auto_aim: bool,
    /// The shots that are queued.
    pub bullet_load: u8,
}

impl MainUnit {
    /// The unit after it has moved as `command` asks for the time `dt`. Any
    /// movement asked for, and a held trigger, end a forced aim.
    pub open spec fn spec_update_position(self, dt: int, command: Command, trigger: bool) -> MainUnit {
        MainUnit {
            position: self.position.spec_moved(
                spec_product(dt, self.speed as int) as int,
                command.wasd.x as int,
                command.wasd.y as int,
            ),
            auto_aim: self.auto_aim && !command.spec_moving() && !trigger,
            ..self
        }
    }

    /// The heading toward `target_point`, given the principal arctangent of
    /// the slope of the offset to it: a quarter turn behind the bearing.
    pub open spec fn spec_aimed(self, target_point: Vec2, principal: i64) -> i64 {
        if spec_offset(spec_difference(self.position.x as int, target_point.x as int)) >= 0 {
            spec_difference(principal as int, QUARTER_TURN as int)
        } else {
            spec_difference(principal as int, THREE_QUARTER_TURN as int)
        }
    }

    /// The unit after it has turned: to the command's heading under a
    /// forced aim, else toward `target_point`.
    pub open spec fn spec_update_rotation(
        self,
        target_point: Vec2,
        command: Command,
        principal: i64,
    ) -> MainUnit {
        MainUnit {
            rotation: if self.auto_aim {
                command.rotation
            } else {
                self.spec_aimed(target_point, principal)
            },
            ..self
        }
    }

    /// Whether the time since the last shot allows another.
    pub open spec fn spec_ready(self) -> bool {
        self.shoot_timer >= self.shoot_delay
    }

    /// Whether a shot is fired, given the request that stands in the
    /// command. A unit that is not ready fires nothing. A ready unit fires
    /// on a held trigger and on a queued shot, and else does what the
    /// command asked for before.
    pub open spec fn spec_fires(self, requested: bool, trigger: bool) -> bool {
        self.spec_ready() && (trigger || self.bullet_load > 0 || requested)
    }

    /// The unit after the firing cadence has run: a held trigger empties
    /// the queue, a queued shot is taken from it otherwise, and a shot that
    /// is fired starts the time since the last shot anew.
    pub open spec fn spec_update_shooting(self, requested: bool, trigger: bool) -> MainUnit {
        MainUnit {
            bullet_load: if !self.spec_ready() {
                self.bullet_load
            } else if trigger {
                0
            } else if self.bullet_load > 0 {
                (self.bullet_load - 1) as u8
            } else {
                self.bullet_load
            },
            shoot_timer: if self.spec_fires(requested, trigger) {
                0
            } else {
                self.shoot_timer
            },
            ..self
        }
    }

    /// The unit after the time `dt` has been added to the time since the
    /// last shot.
    pub open spec fn spec_waited(self, dt: int) -> MainUnit {
        MainUnit { shoot_timer: spec_sum(self.shoot_timer as int, dt), ..self }
    }

    /// The unit after a whole update: it waits, moves, turns and runs the
    /// firing cadence, in this order.
    pub open spec fn spec_update(
        self,
        dt: int,
        target_point: Vec2,
        command: Command,
        trigger: bool,
        principal: i64,
    ) -> MainUnit {
        self.spec_waited(dt).spec_update_position(dt, command, trigger).spec_update_rotation(
            target_point,
            command,
            principal,
        ).spec_update_shooting(command.shoot, trigger)
    }

    /// Whether a whole update fires a shot.
    pub open spec fn spec_update_fires(self, dt: int, command: Command, trigger: bool) -> bool {
        self.spec_waited(dt).spec_fires(command.shoot, trigger)
    }

    /// The offset whose arctangent `update` asks for: from `target_point`
    /// to where the unit stands after it has moved.
    pub open spec fn spec_aim(self, dt: int, target_point: Vec2, command: Command, trigger: bool) -> Vec2 {
        spec_offsets(self.spec_update_position(dt, command, trigger).position, target_point)
    }

    /// A unit at `position` that has not fired yet, for a sprite of the
    /// size `extent`.
    pub open spec fn spec_new(extent: Vec2, position: Vec2, speed: i64, shoot_delay: i64, shoot_range: i64) -> MainUnit {
        MainUnit {
            size: extent,
            rotation: 0,
            position,
            speed,
            shoot_timer: 0,
            shoot_delay,
            shoot_range,
            auto_aim: false,
            bullet_load: 0,
        }
    }

    /// A unit at `position` that has not fired yet, for a sprite of the
    /// size `extent`.
    pub fn new(extent: Vec2, position: Vec2, speed: i64, shoot_delay: i64, shoot_range: i64) -> (unit:
        MainUnit)
        ensures
            unit == MainUnit::spec_new(extent, position, speed, shoot_delay, shoot_range),
    {
        MainUnit {
            size: extent,
            rotation: 0,
            position,
            speed,
            shoot_timer: 0,
            shoot_delay,
            shoot_range,
            auto_aim: false,
            bullet_load: 0,
        }
    }

    /// The offset that the caller answers with the principal arctangent of
    /// its slope before it calls `update` with the same arguments.
    pub fn aim(&self, dt: u32, target_point: Vec2, command: &Command, trigger: bool) -> (r: Vec2)
        ensures
            r == self.spec_aim(dt as int, target_point, *command, trigger),
            r.x != 0,
            r.y != 0,
    {
        let mut moved: MainUnit = *self;
        moved.update_position(dt, command, trigger);
        offsets(moved.position, target_point)
    }

    /// Advances the unit by `dt`. `principal` answers `aim`. On return
    /// `command.shoot` says whether a shot is fired in this tick.
    pub fn update(
        &mut self,
        dt: u32,
        target_point: Vec2,
        command: &mut Command,
        trigger: bool,
        principal: i64,
    )
        ensures
            *final(self) == old(self).spec_update(
                dt as int,
                target_point,
                *old(command),
                trigger,
                principal,
            ),
            *final(command) == (Command {
                shoot: old(self).spec_update_fires(dt as int, *old(command), trigger),
                ..*old(command)
            }),
    {
        self.shoot_timer = sum(self.shoot_timer, dt as i64);
        self.update_position(dt, command, trigger);
        self.update_rotation(target_point, command, principal);
        self.update_shooting(command, trigger);
    }

    /// Moves the unit as the command asks, and ends a forced aim on any
    /// manual input.
    pub fn update_position(&mut self, dt: u32, command: &Command, trigger: bool)
        ensures
            *final(self) == old(self).spec_update_position(dt as int, *command, trigger),
    {
        self.position = self.position.moved(
            product(dt as i64, self.speed),
            command.wasd.x,
            command.wasd.y,
        );
        if command.moving() || trigger {
            self.auto_aim = false;
        }
    }

    /// Turns the unit: to the command's heading under a forced aim, else
    /// toward `target_point`.
    pub fn update_rotation(&mut self, target_point: Vec2, command: &Command, principal: i64)
        ensures
            *final(self) == old(self).spec_update_rotation(target_point, *command, principal),
    {
        if self.auto_aim {
            self.rotation = command.rotation;
        } else if offset(self.position.x, target_point.x) >= 0 {
            self.rotation = difference(principal, QUARTER_TURN);
        } else {
            self.rotation = difference(principal, THREE_QUARTER_TURN);
        }
    }

    /// Runs the firing cadence and leaves in `command.shoot` whether a shot
    /// is fired.
    pub fn update_shooting(&mut self, command: &mut Command, trigger: bool)
        ensures
            *final(self) == old(self).spec_update_shooting(old(command).shoot, trigger),
            *final(command) == (Command {
                shoot: old(self).spec_fires(old(command).shoot, trigger),
                ..*old(command)
            }),
    {
        if self.shoot_timer >= self.shoot_delay {
            if trigger {
                command.shoot = true;
                self.bullet_load = 0;
            } else if self.bullet_load > 0 {
                command.shoot = true;
                self.bullet_load -= 1;
            }
        } else {
            command.shoot = false;
        }
        if command.shoot {
            self.shoot_timer = 0;
        }
    }
}

/// Manual movement ends a forced aim: after an update under a command that
/// asks for any movement, the unit aims by itself no more, whatever it did
/// before.
pub proof fn lemma_movement_ends_auto_aim(
    unit: MainUnit,
    dt: int,
    target_point: Vec2,
    command: Command,
    trigger: bool,
    principal: i64,
)
    requires
        command.spec_moving(),
    ensures
        !unit.spec_update(dt, target_point, command, trigger, principal).auto_aim,
{
}

/// A held trigger ends a forced aim as movement does.
pub proof fn lemma_trigger_ends_auto_aim(
    unit: MainUnit,
    dt: int,
    target_point: Vec2,
    command: Command,
    principal: i64,
)
    ensures
        !unit.spec_update(dt, target_point, command, true, principal).auto_aim,
{
}

/// No shot is fired before the delay has passed, and a held trigger fires
/// as soon as it has; a shot that is fired starts the delay anew.
pub proof fn lemma_cadence(unit: MainUnit, dt: int, command: Command, trigger: bool, target_point: Vec2, principal: i64)
    ensures
        spec_sum(unit.shoot_timer as int, dt) < unit.shoot_delay ==> !unit.spec_update_fires(
            dt,
            command,
            trigger,
        ),
        spec_sum(unit.shoot_timer as int, dt) >= unit.shoot_delay ==> unit.spec_update_fires(
            dt,
            command,
            true,
        ),
        unit.spec_update_fires(dt, command, trigger) ==> unit.spec_update(
            dt,
            target_point,
            command,
            trigger,
            principal,
        ).shoot_timer == 0,
{
}

} // verus!
