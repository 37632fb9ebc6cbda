//! Checkpoints and the goal: which checkpoints were reached, the snapshot
//! taken at each, and when a run counts as completed.

use vstd::prelude::*;
use crate::camera::{Cursor, CursorGrabMode, LeashedCamera};
use crate::character_controller::CharacterController;
use crate::input::ResetSnapshot;
use crate::timing::MapDuration;
use crate::vector::Vec3;
use crate::State;

verus! {

/// A gate that the player has to pass before the goal counts.
#[derive(Clone, Copy, Debug, PartialEq, Eq, Structural)]
pub struct Checkpoint {
    pub reached: bool,
}

/// Where a run ends.
#[derive(Clone, Copy, Debug, PartialEq, Eq, Structural)]
pub struct Goal {
    pub position: Vec3,
    /// The turn about the vertical axis, in millionths of a degree.
    pub rotation: i64,
}

/// What a completed run hands on.
#[derive(Clone, Copy, Debug, PartialEq, Eq, Structural)]
pub struct Completion {
    /// The time of the run, for the leaderboard, where a timer was running.
    pub elapsed: Option<u64>,
}

/// Whether the player overlaps checkpoint `i`.
pub open spec fn touched(touching: Seq<bool>, i: int) -> bool {
    0 <= i < touching.len() && touching[i]
}

/// Whether every checkpoint of `checkpoints` was reached.
pub open spec fn all_reached(checkpoints: Seq<Checkpoint>) -> bool {
    forall|i: int| 0 <= i < checkpoints.len() ==> (#[trigger] checkpoints[i]).reached
}

/// Whether the player overlaps one of the first `n` checkpoints.
pub open spec fn any_touched(touching: Seq<bool>, n: int) -> bool {
    exists|i: int| 0 <= i < n && #[trigger] touched(touching, i)
}

/// The checkpoints after every one that the player overlaps was marked.
pub open spec fn marked(checkpoints: Seq<Checkpoint>, touching: Seq<bool>) -> Seq<Checkpoint> {
    Seq::new(
        checkpoints.len(),
        |i: int| Checkpoint { reached: checkpoints[i].reached || touched(touching, i) },
    )
}

/// The snapshot after the checkpoints were looked at: taken anew if the
/// player overlaps one of them.
pub open spec fn snapshot_after(
    snapshot: ResetSnapshot,
    count: nat,
    touching: Seq<bool>,
    player: CharacterController,
    camera: LeashedCamera,
) -> ResetSnapshot {
    if any_touched(touching, count as int) {
        ResetSnapshot::of(player, camera)
    } else {
        snapshot
    }
}

/// Whether a run is completed: the player overlaps the goal and every
/// checkpoint was reached.
pub open spec fn completes(intersects: bool, checkpoints: Seq<Checkpoint>) -> bool {
    intersects && all_reached(checkpoints)
}

/// The run timer as a completed run leaves it: stopped at `now`, unless it
/// was stopped before.
pub open spec fn stopped(timer: Option<MapDuration>, now: u64) -> Option<MapDuration> {
    match timer {
        Some(t) => Some(t.stopped_at(now)),
        None => None,
    }
}

/// What a run that is completed at `now` hands on: the time that its timer
/// holds once it is stopped.
pub open spec fn completion(timer: Option<MapDuration>, now: u64) -> Completion {
    match timer {
        Some(t) => Completion { elapsed: Some(t.stopped_at(now).elapsed_spec(now)) },
        None => Completion { elapsed: None },
    }
}

/// Marks every checkpoint that the player overlaps as reached, and takes
/// the snapshot of the player and the camera if there is one. `touching`
/// says of each checkpoint, by its place, whether the player overlaps it.
/// No checkpoint that was reached is ever unmarked.
pub fn check_checkpoint(
    checkpoints: &mut Vec<Checkpoint>,
    touching: &Vec<bool>,
    player: &CharacterController,
    camera: &LeashedCamera,
    snapshot: &mut ResetSnapshot,
)
    ensures
        final(checkpoints).len() == old(checkpoints).len(),
        forall|i: int|
            0 <= i < old(checkpoints).len() ==> (#[trigger] final(checkpoints)@[i]).reached
                == (old(checkpoints)@[i].reached || touched(touching@, i)),
        forall|i: int|
            0 <= i < old(checkpoints).len() && old(checkpoints)@[i].reached
                ==> (#[trigger] final(checkpoints)@[i]).reached,
        final(checkpoints)@ == marked(old(checkpoints)@, touching@),
        *final(snapshot) == snapshot_after(
            *old(snapshot),
            old(checkpoints)@.len(),
            touching@,
            *player,
            *camera,
        ),
        old(snapshot).wf() && player.wf() && camera.wf() ==> final(snapshot).wf(),
{
    let mut i: usize = 0;
    while i < checkpoints.len()
        invariant
            i <= checkpoints.len(),
            checkpoints.len() == old(checkpoints).len(),
            forall|j: int|
                0 <= j < i ==> (#[trigger] checkpoints@[j]).reached == (old(checkpoints)@[j].reached
                    || touched(touching@, j)),
            forall|j: int| i <= j < checkpoints.len() ==> checkpoints@[j] == old(checkpoints)@[j],
            *snapshot == snapshot_after(*old(snapshot), i as nat, touching@, *player, *camera),
            old(snapshot).wf() && player.wf() && camera.wf() ==> snapshot.wf(),
        decreases checkpoints.len() - i,
    {
        if i < touching.len() && touching[i] {
            checkpoints.set(i, Checkpoint { reached: true });
            *snapshot = ResetSnapshot::capture(player, camera);
            assert(touched(touching@, i as int));
        } else {
            assert forall|k: int| 0 <= k < i + 1 && touched(touching@, k) implies 0 <= k < i by {}
        }
        i += 1;
    }
    proof {
        assert(checkpoints@ =~= marked(old(checkpoints)@, touching@));
    }
}

/// Tells whether every checkpoint was reached, which makes the player
/// eligible to finish.
pub fn all_checkpoints_reached(checkpoints: &Vec<Checkpoint>) -> (r: bool)
    ensures
        r == all_reached(checkpoints@),
{
    let mut i: usize = 0;
    while i < checkpoints.len()
        invariant
            i <= checkpoints.len(),
            forall|j: int| 0 <= j < i ==> (#[trigger] checkpoints@[j]).reached,
        decreases checkpoints.len() - i,
    {
        if !checkpoints[i].reached {
            return false;
        }
        i += 1;
    }
    true
}

/// Completes the run if and only if the player overlaps the goal and every
/// checkpoint was reached. The run timer is then stopped at `now`, unless
/// it was stopped before, the game is finished and the pointer is set free;
/// the result holds the time of the run. Otherwise nothing changes and the
/// result is `None`.
pub fn on_goal(
    intersects: bool,
    checkpoints: &Vec<Checkpoint>,
    state: &mut State,
    timer: &mut Option<MapDuration>,
    cursor: &mut Cursor,
    now: u64,
) -> (done: Option<Completion>)
    ensures
        done is Some <==> intersects && all_reached(checkpoints@),
        done is None ==> *final(state) == *old(state) && *final(timer) == *old(timer) && *final(cursor)
            == *old(cursor),
        done is Some ==> {
            &&& *final(state) == State::Finished
            &&& *final(cursor) == (Cursor { grab_mode: CursorGrabMode::Released, visible: true })
            &&& *final(timer) == stopped(*old(timer), now)
            &&& done == Some(completion(*old(timer), now))
        },
{
    if !intersects || !all_checkpoints_reached(checkpoints) {
        return None;
    }
    *state = State::Finished;
    let elapsed = match *timer {
        Some(running) => {
            let mut stopped = running;
            stopped.stop(now);
            *timer = Some(stopped);
            Some(stopped.elapsed(now))
        },
        None => None,
    };
    cursor.grab_mode = CursorGrabMode::Released;
    cursor.visible = true;
    Some(Completion { elapsed })
}

} // verus!
