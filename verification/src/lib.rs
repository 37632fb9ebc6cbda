//! Movement-and-progression core of a 3D platforming game: a kinematic
//! character controller, a camera on a leash, checkpoints and a goal, the
//! countdown and the timer of a run, and the ghost of the fastest run.
//!
//! The core computes in fixed point: every scalar is an `i64` that counts
//! millionths of its unit (units of length, seconds, degrees), sums and
//! products saturate, and products round toward zero. It holds no
//! trigonometry and no real powers. What needs them comes in from the
//! engine, once per tick: the angle of a normal from straight up, the
//! horizontal axes of the camera, and the damping and the decays over the
//! time of the tick.
//!
//! `Level::update` runs one tick of the game; the modules hold its steps.

use vstd::prelude::*;
use crate::camera::{pointer_of, released, total_dx, total_dy, Cursor, LeashedCamera, MouseMotion};
use crate::character_controller::{CharacterController, GroundHit, Heading, RigidBody, Step, MULTIPLIER_MIN};
use crate::checkpoint::{
    all_reached, check_checkpoint, completes, completion, marked, on_goal, snapshot_after, stopped,
    Checkpoint, Goal,
};
use crate::fixed::{diff, diff_spec, SCALE};
use crate::ghost::{due, waited, GhostRecorder, GhostSample};
use crate::input::{reset_to_checkpoint, restored_camera, restored_player, Keys, ResetSnapshot};
use crate::jumppad::{apply_jumppad_boost, boosted_all, Jumppad};
use crate::map::MapData;
use crate::timing::{countdown_timer, Countdown, MapDuration};
use crate::ui::{leaving, to_main_menu, Command};
use crate::vector::Vec3;

pub mod camera;
pub mod character_controller;
pub mod checkpoint;
pub mod fixed;
pub mod ghost;
pub mod input;
pub mod jumppad;
pub mod leaderboard;
pub mod map;
pub mod player;
pub mod timing;
pub mod ui;
pub mod vector;

verus! {

/// The phase that the game is in.
#[derive(Clone, Copy, Debug, PartialEq, Eq, Hash, Structural)]
pub enum State {
    Mainscreen,
    Playing,
    Finished,
}

/// The pull of gravity on the player: twice 9.81, downward.
pub const PLAYER_GRAVITY: i64 = -19_620_000;

/// The acceleration of the player: 30.
pub const PLAYER_ACCELERATION: i64 = 30_000_000;

/// The damping of the player per sixtieth of a second: 0.98.
pub const PLAYER_DAMPING: i64 = 980_000;

/// The jump impulse of the player: 10.
pub const PLAYER_JUMP_IMPULSE: i64 = 10_000_000;

/// The steepest slope on which the player stands: 15 degrees.
pub const PLAYER_MAX_SLOPE: i64 = 15_000_000;

/// Everything that belongs to one loaded map.
#[derive(Debug)]
pub struct Level {
    pub player: CharacterController,
    pub camera: LeashedCamera,
    pub snapshot: ResetSnapshot,
    pub goal: Goal,
    pub checkpoints: Vec<Checkpoint>,
    pub pads: Vec<Jumppad>,
    pub countdown: Countdown,
    /// The timer of the run, once the countdown has run out.
    pub timer: Option<MapDuration>,
    pub recorder: GhostRecorder,
}

/// The player as it stands at the start of a map: one unit below
/// `start_pos`, at rest, in the air, with the player's tuning.
pub open spec fn player_at(start_pos: Vec3) -> CharacterController {
    CharacterController {
        position: Vec3 { y: diff_spec(start_pos.y as int, SCALE as int) as i64, ..start_pos },
        velocity: Vec3::zero(),
        body: RigidBody::Kinematic,
        grounded: false,
        sliding: false,
        jump_count: 0,
        multiplier: MULTIPLIER_MIN,
        acceleration: PLAYER_ACCELERATION,
        damping: PLAYER_DAMPING,
        jump_impulse: PLAYER_JUMP_IMPULSE,
        max_slope_angle: PLAYER_MAX_SLOPE,
        gravity: Vec3 { x: 0, y: PLAYER_GRAVITY, z: 0 },
    }
}

/// The strengths of the pads of a map, in their order; none where the map
/// names no pads.
pub open spec fn pad_strengths(pads: Option<Vec<map::Jumppad>>) -> Seq<Jumppad> {
    match pads {
        Some(list) => Seq::new(list@.len(), |i: int| Jumppad(list@[i].strength)),
        None => Seq::<Jumppad>::empty(),
    }
}

/// What the engine reports of one tick.
#[derive(Debug)]
pub struct Frame {
    /// The moment of the tick.
    pub now: u64,
    pub step: Step,
    pub keys: Keys,
    /// Whether the key that resets to the last checkpoint went down.
    pub reset: bool,
    /// Whether the key that locks the camera went down.
    pub lock: bool,
    /// Whether the escape key went down.
    pub escape: bool,
    /// Whether the window has the focus.
    pub focused: bool,
    pub mouse: Vec<MouseMotion>,
    /// The horizontal axes of the camera as the last tick left it.
    pub heading: Heading,
    /// The hits of the downward shape cast, nearest first.
    pub ground_hits: Vec<GroundHit>,
    /// Of each checkpoint, by its place, whether the player overlaps it.
    pub touching_checkpoints: Vec<bool>,
    /// Of each pad, by its place, whether the player overlaps it.
    pub touching_pads: Vec<bool>,
    /// Whether the player's collider intersects that of the goal.
    pub intersects_goal: bool,
    /// Where the player is and how it is turned.
    pub pose: GhostSample,
}

/// A level as the contracts see it: its lists as sequences.
pub struct LevelView {
    pub player: CharacterController,
    pub camera: LeashedCamera,
    pub snapshot: ResetSnapshot,
    pub goal: Goal,
    pub checkpoints: Seq<Checkpoint>,
    pub pads: Seq<Jumppad>,
    pub countdown: Countdown,
    pub timer: Option<MapDuration>,
    pub log: Seq<GhostSample>,
    pub duration: Seq<i64>,
    pub elapsed: i64,
}

/// What one tick makes of a level, the phase and the pointer, and what it
/// asks the engine to do.
pub struct Updated {
    pub level: LevelView,
    pub state: State,
    pub cursor: Cursor,
    pub commands: Seq<Command>,
}

/// The time of a tick as the countdown counts it: none for a tick that runs
/// backward.
pub open spec fn delta_of(dt: i64) -> u64 {
    if dt > 0 {
        dt as u64
    } else {
        0
    }
}

/// What a completed run asks for: to store the ghost, and to save the time
/// of the run where there is one.
pub open spec fn completion_commands(timer: Option<MapDuration>, now: u64) -> Seq<Command> {
    match completion(timer, now).elapsed {
        Some(time) => seq![Command::StoreGhost, Command::SaveLeaderboardData(time)],
        None => seq![Command::StoreGhost],
    }
}

/// One tick of a game that is being played. In this order: the controller
/// runs its tick, steered only in a run; the reset key puts the player
/// back; pads throw it up; checkpoints are marked and the snapshot taken;
/// the goal completes the run; the countdown counts and starts the timer;
/// in a run the ghost recorder samples; the escape key leaves; and last the
/// camera turns with the mouse and is locked or unlocked.
pub open spec fn played(level: LevelView, cursor: Cursor, frame: Frame) -> Updated {
    let in_run = level.timer is Some;
    let ticked = level.player.ticked(frame.keys, frame.ground_hits@, frame.heading, frame.step, in_run);
    let reset = if frame.reset {
        restored_player(ticked, level.snapshot)
    } else {
        ticked
    };
    let camera = if frame.reset {
        restored_camera(level.camera, level.snapshot)
    } else {
        level.camera
    };
    let player = boosted_all(reset, level.pads, frame.touching_pads@);
    let checkpoints = marked(level.checkpoints, frame.touching_checkpoints@);
    let snapshot = snapshot_after(
        level.snapshot,
        level.checkpoints.len(),
        frame.touching_checkpoints@,
        player,
        camera,
    );
    let won = completes(frame.intersects_goal, checkpoints);
    let halted = if won {
        stopped(level.timer, frame.now)
    } else {
        level.timer
    };
    let countdown = level.countdown.ticked(delta_of(frame.step.dt));
    let timer = if countdown.just_finished {
        Some(MapDuration { start: frame.now, end: None })
    } else {
        halted
    };
    let sampled = in_run && due(level.elapsed, frame.step.dt);
    let state = if won {
        State::Finished
    } else if frame.escape {
        State::Mainscreen
    } else {
        State::Playing
    };
    let freed = if won || frame.escape {
        released()
    } else {
        cursor
    };
    let turned = camera.turned(total_dx(frame.mouse@), total_dy(frame.mouse@));
    Updated {
        level: LevelView {
            player,
            camera: if frame.lock {
                turned.toggled()
            } else {
                turned
            },
            snapshot,
            goal: level.goal,
            checkpoints,
            pads: level.pads,
            countdown,
            timer,
            log: if sampled {
                level.log.push(frame.pose)
            } else {
                level.log
            },
            duration: if sampled {
                level.duration.push(waited(level.elapsed, frame.step.dt))
            } else {
                level.duration
            },
            elapsed: if sampled {
                0
            } else if in_run {
                waited(level.elapsed, frame.step.dt)
            } else {
                level.elapsed
            },
        },
        state,
        cursor: if frame.lock {
            pointer_of(turned.toggled().ignore_mouse)
        } else {
            freed
        },
        commands: (if won {
            completion_commands(level.timer, frame.now)
        } else {
            Seq::<Command>::empty()
        }) + leaving(frame.escape, if won { State::Finished } else { State::Playing }),
    }
}

/// One tick of the game: that of a game that is being played; once the run
/// is finished, only the grounding and the fall of the player; in the main
/// menu nothing.
pub open spec fn updated(level: LevelView, state: State, cursor: Cursor, frame: Frame) -> Updated {
    match state {
        State::Playing => played(level, cursor, frame),
        State::Finished => Updated {
            level: LevelView {
                player: level.player.classified(frame.ground_hits@).with_gravity(frame.step.dt),
                ..level
            },
            state,
            cursor,
            commands: Seq::<Command>::empty(),
        },
        State::Mainscreen => Updated { level, state, cursor, commands: Seq::<Command>::empty() },
    }
}

/// A checkpoint that was reached stays reached: whatever the phase and
/// whatever the engine reports, a tick keeps the number of checkpoints and
/// unmarks none of them.
pub proof fn lemma_reached_is_kept(level: LevelView, state: State, cursor: Cursor, frame: Frame)
    ensures
        updated(level, state, cursor, frame).level.checkpoints.len() == level.checkpoints.len(),
        forall|i: int|
            0 <= i < level.checkpoints.len() && level.checkpoints[i].reached ==> (#[trigger] updated(
                level,
                state,
                cursor,
                frame,
            ).level.checkpoints[i]).reached,
{
}

/// A game that is being played is finished by a tick if and only if the
/// player then overlaps the goal and every checkpoint is reached, those of
/// this tick included. While a checkpoint is left, the timer is neither
/// stopped nor started, unless the countdown runs out in this tick.
pub proof fn lemma_goal_needs_every_checkpoint(level: LevelView, cursor: Cursor, frame: Frame)
    ensures
        updated(level, State::Playing, cursor, frame).state == State::Finished <==> frame.intersects_goal
            && all_reached(marked(level.checkpoints, frame.touching_checkpoints@)),
        !all_reached(marked(level.checkpoints, frame.touching_checkpoints@)) && !level.countdown.ticked(
            delta_of(frame.step.dt),
        ).just_finished ==> updated(level, State::Playing, cursor, frame).level.timer == level.timer,
{
}

impl View for Level {
    type V = LevelView;

    open spec fn view(&self) -> LevelView {
        LevelView {
            player: self.player,
            camera: self.camera,
            snapshot: self.snapshot,
            goal: self.goal,
            checkpoints: self.checkpoints@,
            pads: self.pads@,
            countdown: self.countdown,
            timer: self.timer,
            log: self.recorder.data.log@,
            duration: self.recorder.data.duration@,
            elapsed: self.recorder.elapsed,
        }
    }
}

impl Level {
    /// What always holds of a level: its player, its camera, its snapshot,
    /// its countdown and its recorder are well-formed.
    pub open spec fn wf(self) -> bool {
        &&& self.player.wf()
        &&& self.camera.wf()
        &&& self.snapshot.wf()
        &&& self.countdown.wf()
        &&& self.recorder.wf()
    }

    /// Runs one tick of the game on the level, in the phase `state`, and
    /// returns what the engine is to do, in order. What a tick does, and in
    /// which order, depends on the phase alone: see `updated`.
    pub fn update(&mut self, state: &mut State, cursor: &mut Cursor, frame: &Frame) -> (commands: Vec<Command>)
        ensures
            final(self)@ == updated(old(self)@, *old(state), *old(cursor), *frame).level,
            *final(state) == updated(old(self)@, *old(state), *old(cursor), *frame).state,
            *final(cursor) == updated(old(self)@, *old(state), *old(cursor), *frame).cursor,
            commands@ == updated(old(self)@, *old(state), *old(cursor), *frame).commands,
            old(self).wf() ==> final(self).wf(),
    {
        let mut commands: Vec<Command> = Vec::new();
        match *state {
            State::Mainscreen => {},
            State::Finished => {
                self.player.tick_finished(&frame.ground_hits, frame.step.dt);
            },
            State::Playing => {
                let in_run = self.timer.is_some();
                self.player.tick(&frame.keys, &frame.ground_hits, &frame.heading, &frame.step, in_run);
                reset_to_checkpoint(frame.reset, &mut self.player, &mut self.camera, &self.snapshot);
                apply_jumppad_boost(&mut self.player, &self.pads, &frame.touching_pads);
                check_checkpoint(
                    &mut self.checkpoints,
                    &frame.touching_checkpoints,
                    &self.player,
                    &self.camera,
                    &mut self.snapshot,
                );
                let done = on_goal(
                    frame.intersects_goal,
                    &self.checkpoints,
                    state,
                    &mut self.timer,
                    cursor,
                    frame.now,
                );
                let delta: u64 = if frame.step.dt > 0 {
                    frame.step.dt as u64
                } else {
                    0
                };
                self.countdown.tick(delta);
                countdown_timer(&self.countdown, &mut self.timer, frame.now);
                if in_run {
                    self.recorder.ghost_recorder(frame.step.dt, frame.pose);
                }
                match done {
                    Some(result) => {
                        commands.push(Command::StoreGhost);
                        match result.elapsed {
                            Some(time) => {
                                commands.push(Command::SaveLeaderboardData(time));
                            },
                            None => {},
                        }
                    },
                    None => {},
                }
                let mut leave = to_main_menu(frame.escape, state, cursor);
                commands.append(&mut leave);
                self.camera.leash_camera(&frame.mouse);
                self.camera.toggle_camera_lock(cursor, frame.focused, frame.lock);
                proof {
                    let expected = updated(old(self)@, *old(state), *old(cursor), *frame);
                    assert(commands@ =~= expected.commands);
                    assert(self@.log =~= expected.level.log);
                    assert(self@.duration =~= expected.level.duration);
                }
            },
        }
        commands
    }
}

/// Sets up a map to be played: the player one unit below the start, the
/// camera level and turned to the start rotation, the goal at the end, one
/// checkpoint that is not reached for each of the map, one pad for each of
/// the map, a countdown that has not begun, no timer and an empty log.
pub fn load_map(map: &MapData) -> (level: Level)
    ensures
        level.player == player_at(map.start_pos),
        level.camera == LeashedCamera::new_spec(map.start_rotation),
        level.snapshot == ResetSnapshot::origin(),
        level.goal == (Goal { position: map.end_pos, rotation: map.end_rotation }),
        level.checkpoints@ == Seq::new(map.checkpoints@.len(), |i: int| Checkpoint { reached: false }),
        level.pads@ == pad_strengths(map.pads),
        level.countdown == Countdown::start(),
        level.timer is None,
        level.recorder.elapsed == 0,
        level.recorder.data.log@ == Seq::<GhostSample>::empty(),
        level.recorder.data.duration@ == Seq::<i64>::empty(),
        level.wf(),
{
    let start = Vec3::new(map.start_pos.x, diff(map.start_pos.y, SCALE), map.start_pos.z);
    let player = CharacterController::new(start, Vec3::new(0, PLAYER_GRAVITY, 0)).with_movement(
        PLAYER_ACCELERATION,
        PLAYER_DAMPING,
        PLAYER_JUMP_IMPULSE,
        PLAYER_MAX_SLOPE,
    );
    let mut checkpoints: Vec<Checkpoint> = Vec::new();
    let mut i: usize = 0;
    while i < map.checkpoints.len()
        invariant
            i <= map.checkpoints.len(),
            checkpoints@ == Seq::new(i as nat, |k: int| Checkpoint { reached: false }),
        decreases map.checkpoints.len() - i,
    {
        checkpoints.push(Checkpoint { reached: false });
        proof {
            assert(checkpoints@ =~= Seq::new((i + 1) as nat, |k: int| Checkpoint { reached: false }));
        }
        i += 1;
    }
    let mut pads: Vec<Jumppad> = Vec::new();
    match &map.pads {
        Some(list) => {
            let mut j: usize = 0;
            while j < list.len()
                invariant
                    j <= list.len(),
                    pads@ == Seq::new(j as nat, |k: int| Jumppad(list@[k].strength)),
                decreases list.len() - j,
            {
                pads.push(Jumppad(list[j].strength));
                proof {
                    assert(pads@ =~= Seq::new((j + 1) as nat, |k: int| Jumppad(list@[k].strength)));
                }
                j += 1;
            }
        },
        None => {},
    }
    proof {
        assert(checkpoints@ =~= Seq::new(map.checkpoints@.len(), |i: int| Checkpoint { reached: false }));
        assert(pads@ =~= pad_strengths(map.pads));
    }
    Level {
        player,
        camera: LeashedCamera::new(map.start_rotation),
        snapshot: ResetSnapshot::new(),
        goal: Goal { position: map.end_pos, rotation: map.end_rotation },
        checkpoints,
        pads,
        countdown: Countdown::new(),
        timer: None,
        recorder: GhostRecorder::new(),
    }
}

} // verus!
