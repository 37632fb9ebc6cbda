use parkour_core::camera::{Cursor, CursorGrabMode, MouseMotion};
use parkour_core::character_controller::{GroundHit, Heading, Step};
use parkour_core::ghost::GhostSample;
use parkour_core::input::Keys;
use parkour_core::map::MapData;
use parkour_core::timing::MapDuration;
use parkour_core::ui::Command;
use parkour_core::vector::{Quat, Vec3};
use parkour_core::{load_map, Frame, Level, State};

const ONE: i64 = 1_000_000;
const TICK: i64 = 33_333;

fn course() -> MapData {
    MapData {
        name: String::from("up"),
        scene: None,
        file: String::from("up"),
        start_pos: Vec3::new(0, ONE, 0),
        end_pos: Vec3::new(0, 0, -50 * ONE),
        end_rotation: 0,
        start_rotation: 0,
        checkpoints: vec![
            parkour_core::map::Checkpoint { pos: Vec3::new(0, 0, -10 * ONE), rot: 0 },
            parkour_core::map::Checkpoint { pos: Vec3::new(0, 0, -30 * ONE), rot: 0 },
        ],
        pads: Some(vec![parkour_core::map::Jumppad { pos: Vec3::new(0, 0, -20 * ONE), strength: 25 * ONE }]),
        collidertype: None,
    }
}

fn hidden() -> Cursor {
    Cursor { grab_mode: CursorGrabMode::Locked, visible: false }
}

fn shown() -> Cursor {
    Cursor { grab_mode: CursorGrabMode::Released, visible: true }
}

fn quiet(now: u64) -> Frame {
    Frame {
        now,
        step: Step { dt: TICK, damping: 960_400, grounded_decay: 940_900, airborne_decay: 998_001 },
        keys: Keys { up: false, down: false, left: false, right: false, jump: false },
        reset: false,
        lock: false,
        escape: false,
        focused: true,
        mouse: vec![],
        heading: Heading { right: Vec3::new(ONE, 0, 0), forward: Vec3::new(0, 0, -ONE) },
        ground_hits: vec![GroundHit { ground: true, slope_angle: 0 }],
        touching_checkpoints: vec![false, false],
        touching_pads: vec![false],
        intersects_goal: false,
        pose: GhostSample { position: Vec3::new(0, 0, 0), orientation: Quat { x: 0, y: 0, z: 0, w: ONE } },
    }
}

/// A level whose countdown has run out, with its timer started at 3 s.
fn running() -> (Level, State, Cursor, u64) {
    let mut level = load_map(&course());
    let mut state = State::Playing;
    let mut cursor = hidden();
    let mut now = 0;
    while level.timer.is_none() {
        now += TICK as u64;
        let commands = level.update(&mut state, &mut cursor, &quiet(now));
        assert!(commands.is_empty());
        assert!(now < 4_000_000);
    }
    (level, state, cursor, now)
}

#[test]
fn countdown_gates_the_run() {
    let mut level = load_map(&course());
    let mut state = State::Playing;
    let mut cursor = hidden();
    let mut frame = quiet(TICK as u64);
    frame.keys.up = true;
    frame.keys.jump = true;
    level.update(&mut state, &mut cursor, &frame);
    // no timer yet: the keys are ignored, gravity is not
    assert_eq!(level.timer, None);
    assert_eq!(level.player.velocity, Vec3::new(0, -653_993, 0));
    assert_eq!(level.player.jump_count, 0);
    assert_eq!(level.player.multiplier, ONE);
    assert!(level.player.grounded);
    assert_eq!(level.countdown.elapsed, TICK as u64);
    assert!(level.recorder.data.log.is_empty());
    assert_eq!(level.recorder.elapsed, 0);
}

#[test]
fn timer_starts_when_the_countdown_ends() {
    let (level, state, cursor, now) = running();
    // ninety-one ticks of a thirtieth of a second pass three seconds
    assert_eq!(now, 91 * TICK as u64);
    assert_eq!(level.timer, Some(MapDuration { start: now, end: None }));
    assert!(level.countdown.finished && level.countdown.just_finished);
    assert_eq!(state, State::Playing);
    assert_eq!(cursor, hidden());
}

#[test]
fn keys_steer_in_a_run() {
    let (mut level, mut state, mut cursor, now) = running();
    level.player.velocity = Vec3::new(0, 0, 0);
    let mut frame = quiet(now + TICK as u64);
    frame.keys.up = true;
    frame.keys.jump = true;
    level.update(&mut state, &mut cursor, &frame);
    assert_eq!(level.player.velocity, Vec3::new(0, 10 * ONE, -960_390));
    assert_eq!(level.player.multiplier, 1_975_890);
    assert!(!level.countdown.just_finished);
}

#[test]
fn recorder_samples_only_in_a_run() {
    let (mut level, mut state, mut cursor, mut now) = running();
    assert!(level.recorder.data.log.is_empty());
    for _ in 0..10 {
        now += TICK as u64;
        let mut frame = quiet(now);
        frame.pose.position = Vec3::new(7, 8, 9);
        level.update(&mut state, &mut cursor, &frame);
    }
    // the tenth tick passes 0.3 s
    assert_eq!(level.recorder.data.duration, vec![333_330]);
    assert_eq!(level.recorder.data.log.len(), 1);
    assert_eq!(level.recorder.data.log[0].position, Vec3::new(7, 8, 9));
    assert_eq!(level.recorder.elapsed, 0);
}

#[test]
fn checkpoints_then_goal_finish_the_run() {
    let (mut level, mut state, mut cursor, start) = running();
    let mut now = start;

    now += TICK as u64;
    let mut frame = quiet(now);
    frame.intersects_goal = true;
    assert_eq!(level.update(&mut state, &mut cursor, &frame), vec![]);
    assert_eq!(state, State::Playing);

    now += TICK as u64;
    let mut frame = quiet(now);
    frame.touching_checkpoints = vec![true, false];
    frame.intersects_goal = true;
    assert_eq!(level.update(&mut state, &mut cursor, &frame), vec![]);
    assert_eq!(state, State::Playing);
    assert!(level.checkpoints[0].reached && !level.checkpoints[1].reached);
    assert_eq!(level.timer, Some(MapDuration { start, end: None }));
    assert_eq!(cursor, hidden());

    now += TICK as u64;
    let mut frame = quiet(now);
    frame.touching_checkpoints = vec![false, true];
    assert_eq!(level.update(&mut state, &mut cursor, &frame), vec![]);
    assert!(level.checkpoints[0].reached && level.checkpoints[1].reached);
    assert_eq!(state, State::Playing);

    now += TICK as u64;
    let mut frame = quiet(now);
    frame.intersects_goal = true;
    let commands = level.update(&mut state, &mut cursor, &frame);
    assert_eq!(commands, vec![Command::StoreGhost, Command::SaveLeaderboardData(4 * TICK as u64)]);
    assert_eq!(state, State::Finished);
    assert_eq!(cursor, shown());
    assert_eq!(level.timer, Some(MapDuration { start, end: Some(now) }));
}

#[test]
fn last_checkpoint_and_goal_in_one_tick() {
    let (mut level, mut state, mut cursor, start) = running();
    let mut frame = quiet(start + 5);
    frame.touching_checkpoints = vec![true, true];
    frame.intersects_goal = true;
    let commands = level.update(&mut state, &mut cursor, &frame);
    assert_eq!(commands, vec![Command::StoreGhost, Command::SaveLeaderboardData(5)]);
    assert_eq!(state, State::Finished);
}

#[test]
fn snapshot_and_reset_through_ticks() {
    let (mut level, mut state, mut cursor, start) = running();
    level.player.position = Vec3::new(ONE, 2 * ONE, 3 * ONE);
    level.player.velocity = Vec3::new(0, 0, 0);
    let mut frame = quiet(start + 1);
    frame.touching_checkpoints = vec![true, false];
    frame.mouse = vec![MouseMotion { dx: 10 * ONE, dy: 0 }];
    level.update(&mut state, &mut cursor, &frame);
    let taken = level.snapshot;
    assert_eq!(taken.pos, Vec3::new(ONE, 2 * ONE, 3 * ONE));
    assert_eq!(taken.vel, Vec3::new(0, -653_993, 0));
    // the snapshot is taken before the camera turns
    assert_eq!(taken.camera, (0, 0));
    assert_eq!(level.camera.yaw, -318_310);

    level.player.position = Vec3::new(0, -80 * ONE, 0);
    level.player.multiplier = 5 * ONE;
    let mut frame = quiet(start + 2);
    frame.reset = true;
    frame.ground_hits = vec![];
    level.update(&mut state, &mut cursor, &frame);
    assert_eq!(level.player.position, taken.pos);
    assert_eq!(level.player.velocity, taken.vel);
    assert_eq!(level.player.jump_count, taken.jump_count);
    assert_eq!((level.camera.yaw, level.camera.pitch), taken.camera);
    assert_eq!(level.player.multiplier, 4_990_005);
}

#[test]
fn pad_boosts_through_a_tick() {
    let (mut level, mut state, mut cursor, start) = running();
    let mut frame = quiet(start + 1);
    frame.ground_hits = vec![];
    frame.touching_pads = vec![true];
    level.player.jump_count = 2;
    level.update(&mut state, &mut cursor, &frame);
    assert_eq!(level.player.velocity.y, 25 * ONE);
    assert_eq!(level.player.jump_count, 0);
}

#[test]
fn escape_leaves_to_the_menu() {
    let (mut level, mut state, mut cursor, start) = running();
    let mut frame = quiet(start + 1);
    frame.escape = true;
    let commands = level.update(&mut state, &mut cursor, &frame);
    assert_eq!(commands, vec![Command::Unload, Command::LoadMainscreen]);
    assert_eq!(state, State::Mainscreen);
    assert_eq!(cursor, shown());
}

#[test]
fn lock_key_toggles_after_the_mouse() {
    let (mut level, mut state, mut cursor, start) = running();
    let mut frame = quiet(start + 1);
    frame.lock = true;
    frame.mouse = vec![MouseMotion { dx: 0, dy: 10 * ONE }];
    level.update(&mut state, &mut cursor, &frame);
    assert_eq!(level.camera.pitch, -318_310);
    assert!(level.camera.ignore_mouse);
    assert_eq!(cursor, shown());
    let mut frame = quiet(start + 2);
    frame.mouse = vec![MouseMotion { dx: 0, dy: 10 * ONE }];
    level.update(&mut state, &mut cursor, &frame);
    assert_eq!(level.camera.pitch, -318_310);
}

#[test]
fn finished_game_only_falls() {
    let (mut level, _, mut cursor, start) = running();
    let mut state = State::Finished;
    level.player.velocity = Vec3::new(ONE, 0, ONE);
    level.player.multiplier = 3 * ONE;
    let mut frame = quiet(start + 1);
    frame.keys.up = true;
    frame.keys.jump = true;
    frame.touching_checkpoints = vec![true, true];
    frame.intersects_goal = true;
    frame.escape = true;
    frame.ground_hits = vec![GroundHit { ground: true, slope_angle: 60 * ONE }];
    let before_timer = level.timer;
    let commands = level.update(&mut state, &mut cursor, &frame);
    assert_eq!(commands, vec![]);
    assert_eq!(state, State::Finished);
    assert_eq!(level.player.velocity, Vec3::new(ONE, -653_993, ONE));
    assert!(level.player.sliding && !level.player.grounded);
    assert_eq!(level.player.multiplier, 3 * ONE);
    assert!(!level.checkpoints[0].reached);
    assert_eq!(level.timer, before_timer);
}

#[test]
fn main_menu_changes_nothing() {
    let mut level = load_map(&course());
    let mut state = State::Mainscreen;
    let mut cursor = shown();
    let mut frame = quiet(1);
    frame.keys.jump = true;
    frame.intersects_goal = true;
    frame.escape = true;
    let commands = level.update(&mut state, &mut cursor, &frame);
    assert_eq!(commands, vec![]);
    assert_eq!(state, State::Mainscreen);
    assert_eq!(level.player, load_map(&course()).player);
    assert_eq!(level.countdown.elapsed, 0);
}
