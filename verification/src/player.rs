//! Which animation the player's model shows.

use vstd::prelude::*;
use crate::character_controller::CharacterController;
use crate::fixed::SCALE;
use crate::vector::Vec3;

verus! {

/// The clips of the player's model.
#[derive(Clone, Copy, Debug, PartialEq, Eq, Structural)]
pub enum Clip {
    Idle,
    Gallop,
    Jump,
}

/// What to do with the animation in one tick.
#[derive(Clone, Copy, Debug, PartialEq, Eq, Structural)]
pub enum AnimationCue {
    /// Blend to the clip within so many milliseconds, and repeat it.
    Repeat(Clip, u64),
    /// Blend to the clip within so many milliseconds, and play it once.
    Play(Clip, u64),
    /// Start the clip that is playing anew.
    Replay,
    /// Leave the animation as it is.
    Keep,
}

/// The jump count for which the jump was last shown, if it was shown since
/// the player last stood or ran.
#[derive(Clone, Copy, Debug, PartialEq, Eq, Structural)]
pub struct AnimationMemory {
    pub shown: Option<u32>,
}

/// The square of the length of `v`, in raw steps.
pub open spec fn length_squared(v: Vec3) -> int {
    v.x * v.x + v.y * v.y + v.z * v.z
}

/// Whether `v` is longer than one.
pub open spec fn longer_than_one(v: Vec3) -> bool {
    length_squared(v) > SCALE * SCALE
}

/// The cue for a player in the state `player`.
pub open spec fn cue_spec(player: CharacterController, playing_jump: bool, memory: AnimationMemory) -> AnimationCue {
    if longer_than_one(player.velocity) && (player.sliding || player.grounded) {
        AnimationCue::Repeat(Clip::Gallop, 100)
    } else if !player.grounded && !player.sliding {
        if memory.shown == Some(player.jump_count) {
            AnimationCue::Keep
        } else if playing_jump {
            AnimationCue::Replay
        } else {
            AnimationCue::Play(Clip::Jump, 50)
        }
    } else {
        AnimationCue::Repeat(Clip::Idle, 100)
    }
}

/// What is remembered after the cue for a player in the state `player`.
pub open spec fn memory_spec(player: CharacterController) -> AnimationMemory {
    if !player.grounded && !player.sliding {
        AnimationMemory { shown: Some(player.jump_count) }
    } else {
        AnimationMemory { shown: None }
    }
}

impl AnimationMemory {
    /// The memory at the start of a map: as if the jump had been shown for
    /// the jump count zero.
    pub fn new() -> (m: AnimationMemory)
        ensures
            m == (AnimationMemory { shown: Some(0u32) }),
    {
        AnimationMemory { shown: Some(0) }
    }
}

/// Tells whether `v` is longer than one.
pub fn is_longer_than_one(v: Vec3) -> (r: bool)
    ensures
        r == longer_than_one(v),
{
    let x = square(v.x);
    let y = square(v.y);
    let z = square(v.z);
    let one = square(SCALE);
    x + y + z > one
}

fn square(a: i64) -> (r: u128)
    ensures
        r == a * a,
        r <= 0x4000_0000_0000_0000_0000_0000_0000_0000,
{
    let size: u128 = if a >= 0 {
        a as u128
    } else {
        (-(a as i128)) as u128
    };
    assert(size * size == a * a && size * size <= 0x4000_0000_0000_0000_0000_0000_0000_0000)
        by (nonlinear_arith)
        requires
            size == a || size == -a,
            0 <= size <= 0x8000_0000_0000_0000,
    ;
    size * size
}

/// Chooses the animation of the player's model. On the ground or a slope it
/// gallops while it moves faster than one, and idles otherwise. In the air
/// it shows the jump once for each jump count: it starts the clip anew where
/// `playing_jump` says that it is playing, and else blends to it.
pub fn update_player_animation(
    player: &CharacterController,
    playing_jump: bool,
    memory: &mut AnimationMemory,
) -> (cue: AnimationCue)
    ensures
        cue == cue_spec(*player, playing_jump, *old(memory)),
        *final(memory) == memory_spec(*player),
{
    if is_longer_than_one(player.velocity) && (player.sliding || player.grounded) {
        memory.shown = None;
        AnimationCue::Repeat(Clip::Gallop, 100)
    } else if !player.grounded && !player.sliding {
        let seen = match memory.shown {
            Some(count) => count == player.jump_count,
            None => false,
        };
        memory.shown = Some(player.jump_count);
        if seen {
            AnimationCue::Keep
        } else if playing_jump {
            AnimationCue::Replay
        } else {
            AnimationCue::Play(Clip::Jump, 50)
        }
    } else {
        memory.shown = None;
        AnimationCue::Repeat(Clip::Idle, 100)
    }
}

} // verus!
