//! From keys to movement actions, and the reset to the last checkpoint.

use vstd::prelude::*;
use crate::camera::LeashedCamera;
use crate::character_controller::{CharacterController, MovementAction, MAX_AIR_JUMPS};
use crate::fixed::SCALE;
use crate::vector::Vec3;

verus! {

/// One component of a unit direction that points along a diagonal: the
/// square root of a half.
pub const DIAGONAL: i64 = 707_107;

/// The keys that matter to movement, as they stand in one tick.
#[derive(Clone, Copy, Debug, PartialEq, Eq, Structural)]
pub struct Keys {
    pub up: bool,
    pub down: bool,
    pub left: bool,
    pub right: bool,
    /// Whether the jump key went down in this tick.
    pub jump: bool,
}

/// What is needed to put the player back where a checkpoint was passed.
#[derive(Clone, Copy, Debug, PartialEq, Eq)]
pub struct ResetSnapshot {
    /// Position when going through the checkpoint.
    pub pos: Vec3,
    /// Velocity when going through the checkpoint.
    pub vel: Vec3,
    /// Yaw and pitch of the camera at the checkpoint.
    pub camera: (i64, i64),
    /// Jump count when passing the checkpoint.
    pub jump_count: u32,
}

/// One for `plus` alone, minus one for `minus` alone, else zero.
pub open spec fn axis(plus: bool, minus: bool) -> int {
    if plus && !minus {
        1
    } else if minus && !plus {
        -1
    } else {
        0
    }
}

/// The direction that the keys ask for: right minus left along `x`, up minus
/// down along `z`, and no longer than one.
pub open spec fn direction_spec(keys: Keys) -> Vec3 {
    let horizontal = axis(keys.right, keys.left);
    let vertical = axis(keys.up, keys.down);
    let step = if horizontal != 0 && vertical != 0 {
        DIAGONAL as int
    } else {
        SCALE as int
    };
    Vec3 { x: (horizontal * step) as i64, y: 0, z: (vertical * step) as i64 }
}

/// The actions that the keys ask for: a move, unless its direction is zero,
/// and then a jump, if the jump key went down.
pub open spec fn actions_spec(keys: Keys) -> Seq<MovementAction> {
    let moves = if direction_spec(keys) != Vec3::zero() {
        seq![MovementAction::Move(direction_spec(keys))]
    } else {
        Seq::<MovementAction>::empty()
    };
    if keys.jump {
        moves.push(MovementAction::Jump)
    } else {
        moves
    }
}

/// The direction that the keys ask for.
pub fn direction(keys: &Keys) -> (d: Vec3)
    ensures
        d == direction_spec(*keys),
{
    let horizontal: i64 = if keys.right && !keys.left {
        1
    } else if keys.left && !keys.right {
        -1
    } else {
        0
    };
    let vertical: i64 = if keys.up && !keys.down {
        1
    } else if keys.down && !keys.up {
        -1
    } else {
        0
    };
    let step: i64 = if horizontal != 0 && vertical != 0 {
        DIAGONAL
    } else {
        SCALE
    };
    Vec3 { x: horizontal * step, y: 0, z: vertical * step }
}

/// Turns the keys of one tick into movement actions.
pub fn keyboard_input(keys: &Keys) -> (actions: Vec<MovementAction>)
    ensures
        actions@ == actions_spec(*keys),
{
    let mut actions: Vec<MovementAction> = Vec::new();
    let d = direction(keys);
    if d.x != 0 || d.y != 0 || d.z != 0 {
        actions.push(MovementAction::Move(d));
    }
    if keys.jump {
        actions.push(MovementAction::Jump);
    }
    proof {
        assert(actions@ =~= actions_spec(*keys));
    }
    actions
}

impl ResetSnapshot {
    /// Whether the snapshot can have been taken of a player: it holds at
    /// most two jumps, and a pitch within ninety degrees of level.
    pub open spec fn wf(self) -> bool {
        &&& self.jump_count <= MAX_AIR_JUMPS
        &&& -crate::camera::PITCH_LIMIT <= self.camera.1 <= crate::camera::PITCH_LIMIT
    }

    /// The snapshot of a player that rests at the origin, with a level
    /// camera.
    pub open spec fn origin() -> ResetSnapshot {
        ResetSnapshot { pos: Vec3::zero(), vel: Vec3::zero(), camera: (0i64, 0i64), jump_count: 0 }
    }

    /// The snapshot of a player that rests at the origin.
    pub fn new() -> (s: ResetSnapshot)
        ensures
            s == ResetSnapshot::origin(),
            s.wf(),
    {
        ResetSnapshot {
            pos: Vec3 { x: 0, y: 0, z: 0 },
            vel: Vec3 { x: 0, y: 0, z: 0 },
            camera: (0, 0),
            jump_count: 0,
        }
    }

    /// The snapshot of `player` and `camera` as they are.
    pub open spec fn of(player: CharacterController, camera: LeashedCamera) -> ResetSnapshot {
        ResetSnapshot {
            pos: player.position,
            vel: player.velocity,
            camera: (camera.yaw, camera.pitch),
            jump_count: player.jump_count,
        }
    }

    /// The snapshot of `player` and `camera` as they are.
    pub fn capture(player: &CharacterController, camera: &LeashedCamera) -> (s: ResetSnapshot)
        ensures
            s == ResetSnapshot::of(*player, *camera),
            player.wf() && camera.wf() ==> s.wf(),
    {
        ResetSnapshot {
            pos: player.position,
            vel: player.velocity,
            camera: (camera.yaw, camera.pitch),
            jump_count: player.jump_count,
        }
    }
}

/// The player as the snapshot puts it back: at its position, with its
/// velocity and its jump count.
pub open spec fn restored_player(player: CharacterController, snapshot: ResetSnapshot) -> CharacterController {
    CharacterController {
        position: snapshot.pos,
        velocity: snapshot.vel,
        jump_count: snapshot.jump_count,
        ..player
    }
}

/// The camera as the snapshot puts it back: with its yaw and pitch.
pub open spec fn restored_camera(camera: LeashedCamera, snapshot: ResetSnapshot) -> LeashedCamera {
    LeashedCamera { yaw: snapshot.camera.0, pitch: snapshot.camera.1, ..camera }
}

/// Puts the player back to the last checkpoint when the reset key was
/// pressed: position, velocity, jump count and the camera's yaw and pitch
/// become those of the snapshot, at once and whatever they were. The
/// multiplier is not part of the snapshot and stays.
pub fn reset_to_checkpoint(
    pressed: bool,
    player: &mut CharacterController,
    camera: &mut LeashedCamera,
    snapshot: &ResetSnapshot,
)
    ensures
        !pressed ==> *final(player) == *old(player) && *final(camera) == *old(camera),
        pressed ==> *final(player) == restored_player(*old(player), *snapshot),
        pressed ==> *final(camera) == restored_camera(*old(camera), *snapshot),
        old(player).wf() && (pressed ==> snapshot.wf()) ==> final(player).wf(),
        old(camera).wf() && (pressed ==> snapshot.wf()) ==> final(camera).wf(),
{
    if pressed {
        player.position = snapshot.pos;
        player.velocity = snapshot.vel;
        player.jump_count = snapshot.jump_count;
        camera.yaw = snapshot.camera.0;
        camera.pitch = snapshot.camera.1;
    }
}

} // verus!
