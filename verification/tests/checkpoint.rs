use parkour_core::camera::{Cursor, CursorGrabMode, LeashedCamera};
use parkour_core::character_controller::CharacterController;
use parkour_core::checkpoint::{all_checkpoints_reached, check_checkpoint, on_goal, Checkpoint, Completion};
use parkour_core::input::{reset_to_checkpoint, ResetSnapshot};
use parkour_core::timing::MapDuration;
use parkour_core::vector::Vec3;
use parkour_core::State;

const ONE: i64 = 1_000_000;

fn player() -> CharacterController {
    let mut p = CharacterController::new(Vec3::new(ONE, 2 * ONE, 3 * ONE), Vec3::new(0, -19_620_000, 0));
    p.velocity = Vec3::new(-ONE, 0, 5 * ONE);
    p.jump_count = 1;
    p.multiplier = 4 * ONE;
    p
}

fn camera() -> LeashedCamera {
    let mut c = LeashedCamera::new(30 * ONE);
    c.pitch = -10 * ONE;
    c
}

fn open(n: usize) -> Vec<Checkpoint> {
    vec![Checkpoint { reached: false }; n]
}

fn hidden() -> Cursor {
    Cursor { grab_mode: CursorGrabMode::Locked, visible: false }
}

#[test]
fn touched_checkpoint_is_reached_and_snapshot_taken() {
    let mut cps = open(3);
    let mut snap = ResetSnapshot::new();
    check_checkpoint(&mut cps, &vec![false, true, false], &player(), &camera(), &mut snap);
    assert_eq!(cps, vec![Checkpoint { reached: false }, Checkpoint { reached: true }, Checkpoint { reached: false }]);
    assert_eq!(
        snap,
        ResetSnapshot {
            pos: Vec3::new(ONE, 2 * ONE, 3 * ONE),
            vel: Vec3::new(-ONE, 0, 5 * ONE),
            camera: (30 * ONE, -10 * ONE),
            jump_count: 1,
        }
    );
}

#[test]
fn untouched_checkpoints_change_nothing() {
    let mut cps = open(2);
    let mut snap = ResetSnapshot::new();
    check_checkpoint(&mut cps, &vec![false, false], &player(), &camera(), &mut snap);
    assert_eq!(cps, open(2));
    assert_eq!(snap, ResetSnapshot::new());
    check_checkpoint(&mut cps, &vec![], &player(), &camera(), &mut snap);
    assert_eq!(cps, open(2));
    check_checkpoint(&mut cps, &vec![false, false, true], &player(), &camera(), &mut snap);
    assert_eq!(cps, open(2));
    assert_eq!(snap, ResetSnapshot::new());
}

#[test]
fn reached_never_reverts() {
    let mut cps = open(3);
    let mut snap = ResetSnapshot::new();
    check_checkpoint(&mut cps, &vec![true, false, false], &player(), &camera(), &mut snap);
    check_checkpoint(&mut cps, &vec![false, false, false], &player(), &camera(), &mut snap);
    assert!(cps[0].reached);
    check_checkpoint(&mut cps, &vec![false, false, true], &player(), &camera(), &mut snap);
    assert!(cps[0].reached && !cps[1].reached && cps[2].reached);
    check_checkpoint(&mut cps, &vec![true, true, true], &player(), &camera(), &mut snap);
    assert!(all_checkpoints_reached(&cps));
    check_checkpoint(&mut cps, &vec![], &player(), &camera(), &mut snap);
    assert!(all_checkpoints_reached(&cps));
}

#[test]
fn last_checkpoint_wins_the_snapshot() {
    let mut cps = open(2);
    let mut snap = ResetSnapshot::new();
    check_checkpoint(&mut cps, &vec![true, false], &player(), &camera(), &mut snap);
    let mut later = player();
    later.position = Vec3::new(9 * ONE, 9 * ONE, 9 * ONE);
    later.jump_count = 2;
    check_checkpoint(&mut cps, &vec![false, true], &later, &camera(), &mut snap);
    assert_eq!(snap.pos, Vec3::new(9 * ONE, 9 * ONE, 9 * ONE));
    assert_eq!(snap.jump_count, 2);
}

#[test]
fn all_reached_needs_every_checkpoint() {
    assert!(all_checkpoints_reached(&vec![]));
    assert!(!all_checkpoints_reached(&open(1)));
    assert!(all_checkpoints_reached(&vec![Checkpoint { reached: true }; 4]));
    let mut cps = vec![Checkpoint { reached: true }; 4];
    cps[3].reached = false;
    assert!(!all_checkpoints_reached(&cps));
}

#[test]
fn goal_completes_the_run() {
    let cps = vec![Checkpoint { reached: true }; 2];
    let mut state = State::Playing;
    let mut timer = Some(MapDuration::new(2_000_000));
    let mut cursor = hidden();
    let done = on_goal(true, &cps, &mut state, &mut timer, &mut cursor, 14_500_000);
    assert_eq!(done, Some(Completion { elapsed: Some(12_500_000) }));
    assert_eq!(state, State::Finished);
    assert_eq!(timer, Some(MapDuration { start: 2_000_000, end: Some(14_500_000) }));
    assert_eq!(cursor, Cursor { grab_mode: CursorGrabMode::Released, visible: true });
}

#[test]
fn goal_without_all_checkpoints_does_nothing() {
    let cps = vec![Checkpoint { reached: true }, Checkpoint { reached: false }];
    let mut state = State::Playing;
    let mut timer = Some(MapDuration::new(2_000_000));
    let mut cursor = hidden();
    let done = on_goal(true, &cps, &mut state, &mut timer, &mut cursor, 14_500_000);
    assert_eq!(done, None);
    assert_eq!(state, State::Playing);
    assert_eq!(timer, Some(MapDuration::new(2_000_000)));
    assert_eq!(cursor, hidden());
}

#[test]
fn all_checkpoints_without_overlap_does_nothing() {
    let cps = vec![Checkpoint { reached: true }; 2];
    let mut state = State::Playing;
    let mut timer = Some(MapDuration::new(2_000_000));
    let mut cursor = hidden();
    let done = on_goal(false, &cps, &mut state, &mut timer, &mut cursor, 14_500_000);
    assert_eq!(done, None);
    assert_eq!(state, State::Playing);
    assert_eq!(timer, Some(MapDuration::new(2_000_000)));
    assert_eq!(cursor, hidden());
}

#[test]
fn goal_does_not_move_a_stopped_timer() {
    let cps = vec![Checkpoint { reached: true }; 2];
    let mut state = State::Playing;
    let mut timer = Some(MapDuration { start: 2_000_000, end: Some(9_000_000) });
    let mut cursor = hidden();
    let done = on_goal(true, &cps, &mut state, &mut timer, &mut cursor, 14_500_000);
    assert_eq!(done, Some(Completion { elapsed: Some(7_000_000) }));
    assert_eq!(timer, Some(MapDuration { start: 2_000_000, end: Some(9_000_000) }));
    assert_eq!(state, State::Finished);
}

#[test]
fn goal_without_timer_still_finishes() {
    let mut state = State::Playing;
    let mut timer = None;
    let mut cursor = hidden();
    let done = on_goal(true, &vec![], &mut state, &mut timer, &mut cursor, 1);
    assert_eq!(done, Some(Completion { elapsed: None }));
    assert_eq!(state, State::Finished);
    assert_eq!(timer, None);
}

#[test]
fn reset_restores_the_snapshot() {
    let mut p = player();
    let mut c = camera();
    let mut snap = ResetSnapshot::new();
    let mut cps = open(1);
    check_checkpoint(&mut cps, &vec![true], &p, &c, &mut snap);
    p.position = Vec3::new(0, -50 * ONE, 0);
    p.velocity = Vec3::new(0, -30 * ONE, 0);
    p.jump_count = 2;
    p.multiplier = 7 * ONE;
    p.grounded = true;
    c.yaw = 0;
    c.pitch = 80 * ONE;
    c.ignore_mouse = true;
    reset_to_checkpoint(true, &mut p, &mut c, &snap);
    assert_eq!(p.position, Vec3::new(ONE, 2 * ONE, 3 * ONE));
    assert_eq!(p.velocity, Vec3::new(-ONE, 0, 5 * ONE));
    assert_eq!(p.jump_count, 1);
    assert_eq!(c.yaw, 30 * ONE);
    assert_eq!(c.pitch, -10 * ONE);
    // what the snapshot does not hold stays
    assert_eq!(p.multiplier, 7 * ONE);
    assert!(p.grounded);
    assert!(c.ignore_mouse);
}

#[test]
fn reset_does_not_depend_on_what_came_before() {
    let snap = ResetSnapshot {
        pos: Vec3::new(5, 6, 7),
        vel: Vec3::new(1, 2, 3),
        camera: (11, 12),
        jump_count: 2,
    };
    let mut a = player();
    let mut ca = camera();
    a.jump();
    a.apply_gravity(33_333);
    let mut b = player();
    let mut cb = camera();
    b.apply_gravity(500_000);
    b.jump();
    b.jump();
    cb.yaw = -77;
    reset_to_checkpoint(true, &mut a, &mut ca, &snap);
    reset_to_checkpoint(true, &mut b, &mut cb, &snap);
    assert_eq!((a.position, a.velocity, a.jump_count), (b.position, b.velocity, b.jump_count));
    assert_eq!((ca.yaw, ca.pitch), (cb.yaw, cb.pitch));
    assert_eq!((a.position, a.velocity, a.jump_count), (snap.pos, snap.vel, 2));
    assert_eq!((ca.yaw, ca.pitch), (11, 12));
}

#[test]
fn reset_without_the_key_does_nothing() {
    let mut p = player();
    let mut c = camera();
    let snap = ResetSnapshot::new();
    reset_to_checkpoint(false, &mut p, &mut c, &snap);
    assert_eq!(p, player());
    assert_eq!(c, camera());
}
