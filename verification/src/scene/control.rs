//! How the command of a tick is made: from the keys, and from the command
//! channel.

use vstd::prelude::*;
use vstd::string::StringExecFns;
use crate::command::Command;
use crate::fixed::{spec_sum, sum, MINUS_ONE, ONE};
use crate::geometry::Vec2;
use crate::scene::{Input, Remote, Scene, SceneView};
use crate::units::main_unit::MainUnit;

verus! {

/// The time between two readings of the command channel: one second.
pub const CHANNEL_PERIOD: i64 = 1_000_000;

/// The time since the last shot that a commanded shot sets, so that it is
/// fired without delay: one second.
pub const COMMANDED_TIMER: i64 = 1_000_000;

/// The movement asked for along one axis: the keys decide while the player
/// stands on the screen, and a player that has left it is sent back, from
/// beyond `limit` before all else.
pub open spec fn spec_axis(back: bool, forth: bool, position: i64, limit: i64) -> i64 {
    if position > limit {
        MINUS_ONE
    } else if position < ONE {
        ONE
    } else if forth && !back {
        ONE
    } else if back && !forth {
        MINUS_ONE
    } else {
        0
    }
}

/// The movement asked for along one axis.
pub fn axis(back: bool, forth: bool, position: i64, limit: i64) -> (r: i64)
    ensures
        r == spec_axis(back, forth, position, limit),
{
    if position > limit {
        MINUS_ONE
    } else if position < ONE {
        ONE
    } else if forth && !back {
        ONE
    } else if back && !forth {
        MINUS_ONE
    } else {
        0
    }
}

impl Remote {
    /// What the channel says when its command field holds `command`: a
    /// shot is commanded by the word `Shoot` and by nothing else.
    pub fn new(
        command: &str,
        target_point_x: Option<i64>,
        target_point_y: Option<i64>,
        rotation: Option<i64>,
    ) -> (remote: Remote)
        ensures
            remote == (Remote {
                shoot: command@ == "Shoot"@,
                target_point_x,
                target_point_y,
                rotation,
            }),
    {
        let shoot = String::from_str(command) == String::from_str("Shoot");
        Remote { shoot, target_point_x, target_point_y, rotation }
    }
}

impl SceneView {
    /// The scene after the keys have been read: the command asks for the
    /// movement they stand for.
    pub open spec fn spec_update_command_from_user_input(self, input: Input) -> SceneView {
        SceneView {
            command: Command {
                wasd: Vec2 {
                    x: spec_axis(input.left, input.right, self.main_unit.position.x, input.screen.x),
                    y: spec_axis(input.up, input.down, self.main_unit.position.y, input.screen.y),
                },
                ..self.command
            },
            ..self
        }
    }

    /// The scene after a commanded shot has been taken up: the command
    /// asks for a shot, the player aims by itself at the point that came
    /// with the command, the origin standing in for a part that could not be
    /// read, and is made ready to fire.
    pub open spec fn spec_commanded(self, remote: Remote) -> SceneView {
        SceneView {
            command: Command { shoot: true, ..self.command },
            target_point: Vec2 {
                x: match remote.target_point_x {
                    Some(x) => x,
                    None => 0,
                },
                y: match remote.target_point_y {
                    Some(y) => y,
                    None => 0,
                },
            },
            main_unit: MainUnit { shoot_timer: COMMANDED_TIMER, auto_aim: true, ..self.main_unit },
            ..self
        }
    }

    /// The scene after the command channel has been read: a commanded
    /// shot is taken up, and a heading that could be read becomes the
    /// heading of the forced aim, while one that could not leaves the old
    /// one.
    pub open spec fn spec_update_command_from_url_query(self, remote: Remote) -> SceneView {
        let taken = if remote.shoot {
            self.spec_commanded(remote)
        } else {
            self
        };
        SceneView {
            command: Command {
                rotation: match remote.rotation {
                    Some(rotation) => rotation,
                    None => taken.command.rotation,
                },
                ..taken.command
            },
            ..taken
        }
    }

    /// Whether the command channel is due in the next tick: a second has
    /// passed since it was read.
    pub open spec fn spec_channel_due(self) -> bool {
        spec_sum(self.tick as int, self.dt as int) >= CHANNEL_PERIOD
    }

    /// The scene after a tick has begun: the time since the channel was
    /// read has grown by the time step of the tick before, the keys have
    /// been read, the channel has been read if it was due and had been
    /// heard, the time step is that of the input, and the target's picture
    /// is at rest.
    pub open spec fn spec_begin_tick(self, input: Input, remote: Option<Remote>) -> SceneView {
        let keyed = self.spec_update_command_from_user_input(input);
        let heard = if self.spec_channel_due() {
            let silent = SceneView { tick: 0, ..keyed };
            match remote {
                Some(remote) => silent.spec_update_command_from_url_query(remote),
                None => silent,
            }
        } else {
            SceneView { tick: spec_sum(self.tick as int, self.dt as int), ..keyed }
        };
        SceneView {
            dt: input.dt,
            target_unit: crate::units::target_unit::TargetUnit {
                shift: Vec2 { x: 0, y: 0 },
                ..heard.target_unit
            },
            ..heard
        }
    }

    /// Whether a tick that begins so takes a commanded shot from the
    /// channel. The caller then clears the channel's command field.
    pub open spec fn spec_consumes(self, remote: Option<Remote>) -> bool {
        self.spec_channel_due() && match remote {
            Some(remote) => remote.shoot,
            None => false,
        }
    }
}

impl Scene {
    /// Reads the keys into the command.
    pub fn update_command_from_user_input(&mut self, input: &Input)
        ensures
            final(self)@ == old(self)@.spec_update_command_from_user_input(*input),
    {
        self.command.wasd = Vec2 {
            x: axis(input.left, input.right, self.main_unit.position.x, input.screen.x),
            y: axis(input.up, input.down, self.main_unit.position.y, input.screen.y),
        };
    }

    /// Takes up what the command channel said. Returns whether a commanded
    /// shot was taken, so that the caller clears the channel's command
    /// field.
    pub fn update_command_from_url_query(&mut self, remote: &Remote) -> (consumed: bool)
        ensures
            final(self)@ == old(self)@.spec_update_command_from_url_query(*remote),
            consumed == remote.shoot,
    {
        if remote.shoot {
            self.command.shoot = true;
            self.target_point = Vec2 {
                x: match remote.target_point_x {
                    Some(x) => x,
                    None => 0,
                },
                y: match remote.target_point_y {
                    Some(y) => y,
                    None => 0,
                },
            };
            self.main_unit.shoot_timer = COMMANDED_TIMER;
            self.main_unit.auto_aim = true;
        }
        match remote.rotation {
            Some(rotation) => {
                self.command.rotation = rotation;
            },
            None => {},
        }
        remote.shoot
    }

    /// Whether the next tick reads the command channel. If so, the caller
    /// writes the report to the channel, reads the channel and hands what
    /// it read to the tick.
    pub fn channel_due(&self) -> (due: bool)
        ensures
            due == self@.spec_channel_due(),
    {
        sum(self.tick, self.dt as i64) >= CHANNEL_PERIOD
    }

    /// Begins a tick. Returns whether a commanded shot was taken from the
    /// channel.
    pub fn begin_tick(&mut self, input: &Input, remote: &Option<Remote>) -> (consumed: bool)
        ensures
            final(self)@ == old(self)@.spec_begin_tick(*input, *remote),
            consumed == old(self)@.spec_consumes(*remote),
    {
        let mut consumed = false;
        self.tick = sum(self.tick, self.dt as i64);
        self.update_command_from_user_input(input);
        if self.tick >= CHANNEL_PERIOD {
            self.tick = 0;
            match remote {
                Some(remote) => {
                    consumed = self.update_command_from_url_query(remote);
                },
                None => {},
            }
        }
        self.dt = input.dt;
        self.target_unit.shift = Vec2 { x: 0, y: 0 };
        consumed
    }
}

/// A commanded shot makes the player aim by itself, and the first update
/// of the player under a command that asks for any movement ends that.
pub proof fn lemma_commanded_aim_ends_with_movement(
    v: SceneView,
    remote: Remote,
    dt: int,
    target_point: Vec2,
    command: Command,
    trigger: bool,
    principal: i64,
)
    requires
        remote.shoot,
        command.spec_moving(),
    ensures
        v.spec_update_command_from_url_query(remote).main_unit.auto_aim,
        !v.spec_update_command_from_url_query(remote).main_unit.spec_update(
            dt,
            target_point,
            command,
            trigger,
            principal,
        ).auto_aim,
{
}

} // verus!
