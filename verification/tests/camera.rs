use parkour_core::camera::{
    raycast_camera, turn, Cursor, CursorGrabMode, LeashedCamera, MouseMotion, RayHit, DEFAULT_DISTANCE,
    PITCH_LIMIT,
};

const ONE: i64 = 1_000_000;

fn hit(sensor: bool, time_of_impact: i64) -> RayHit {
    RayHit { sensor, time_of_impact }
}

fn shown() -> Cursor {
    Cursor { grab_mode: CursorGrabMode::Released, visible: true }
}

fn hidden() -> Cursor {
    Cursor { grab_mode: CursorGrabMode::Locked, visible: false }
}

#[test]
fn new_camera_is_level_and_unlocked() {
    let c = LeashedCamera::new(45 * ONE);
    assert_eq!(c.pitch, 0);
    assert_eq!(c.yaw, 45 * ONE);
    assert!(!c.ignore_mouse);
    assert_eq!(c.max_distance, DEFAULT_DISTANCE);
    assert_eq!(DEFAULT_DISTANCE, 30 * ONE);
}

#[test]
fn turn_scales_dots_to_degrees() {
    assert_eq!(turn(10 * ONE), 318_310);
    assert_eq!(turn(-20 * ONE), -636_620);
    assert_eq!(turn(0), 0);
}

#[test]
fn mouse_turns_the_camera() {
    let mut c = LeashedCamera::new(0);
    c.leash_camera(&vec![MouseMotion { dx: 4 * ONE, dy: -5 * ONE }, MouseMotion { dx: 6 * ONE, dy: -15 * ONE }]);
    assert_eq!(c.yaw, -318_310);
    assert_eq!(c.pitch, 636_620);
}

#[test]
fn no_motion_leaves_the_camera() {
    let mut c = LeashedCamera::new(7 * ONE);
    c.pitch = -3 * ONE;
    let before = c;
    c.leash_camera(&vec![]);
    assert_eq!(c, before);
}

#[test]
fn pitch_stops_at_ninety_degrees() {
    let mut c = LeashedCamera::new(0);
    c.leash_camera(&vec![MouseMotion { dx: 0, dy: -1_000_000 * ONE }]);
    assert_eq!(c.pitch, PITCH_LIMIT);
    assert_eq!(c.pitch, 90 * ONE);
    c.leash_camera(&vec![MouseMotion { dx: 0, dy: i64::MAX }]);
    assert_eq!(c.pitch, -90 * ONE);
    c.leash_camera(&vec![MouseMotion { dx: 0, dy: i64::MIN }, MouseMotion { dx: 0, dy: i64::MIN }]);
    assert_eq!(c.pitch, 90 * ONE);
}

#[test]
fn pitch_stays_in_bounds_for_any_motions() {
    let mut c = LeashedCamera::new(0);
    let mut dy: i64 = 1;
    for round in 0..200 {
        dy = dy.wrapping_mul(6_364_136_223_846_793_005).wrapping_add(1_442_695_040_888_963_407);
        c.leash_camera(&vec![MouseMotion { dx: dy >> 3, dy }, MouseMotion { dx: round, dy: dy >> 20 }]);
        assert!(-PITCH_LIMIT <= c.pitch && c.pitch <= PITCH_LIMIT);
    }
}

#[test]
fn yaw_is_not_clamped() {
    let mut c = LeashedCamera::new(0);
    c.leash_camera(&vec![MouseMotion { dx: -100_000 * ONE, dy: 0 }]);
    assert_eq!(c.yaw, 3_183_100_000);
    assert_eq!(c.pitch, 0);
}

#[test]
fn locked_camera_ignores_the_mouse() {
    let mut c = LeashedCamera::new(5 * ONE);
    c.ignore_mouse = true;
    let before = c;
    c.leash_camera(&vec![MouseMotion { dx: 10 * ONE, dy: 10 * ONE }]);
    assert_eq!(c, before);
}

#[test]
fn toggle_flips_lock_and_pointer_together() {
    let mut c = LeashedCamera::new(12 * ONE);
    c.pitch = 3 * ONE;
    let mut cursor = hidden();
    c.toggle_camera_lock(&mut cursor, true, true);
    assert!(c.ignore_mouse);
    assert_eq!(cursor, shown());
    assert_eq!((c.yaw, c.pitch, c.max_distance), (12 * ONE, 3 * ONE, DEFAULT_DISTANCE));
    c.toggle_camera_lock(&mut cursor, true, true);
    assert!(!c.ignore_mouse);
    assert_eq!(cursor, hidden());
    assert_eq!((c.yaw, c.pitch, c.max_distance), (12 * ONE, 3 * ONE, DEFAULT_DISTANCE));
}

#[test]
fn toggle_does_not_depend_on_the_focus() {
    let mut c = LeashedCamera::new(0);
    let mut cursor = hidden();
    c.toggle_camera_lock(&mut cursor, false, true);
    assert!(c.ignore_mouse);
    assert_eq!(cursor, shown());
    c.toggle_camera_lock(&mut cursor, false, true);
    assert!(!c.ignore_mouse);
    assert_eq!(cursor, hidden());
}

#[test]
fn unlocking_captures_a_pointer_that_was_free() {
    let mut c = LeashedCamera::new(0);
    c.ignore_mouse = true;
    let mut cursor = shown();
    c.toggle_camera_lock(&mut cursor, false, true);
    assert!(!c.ignore_mouse);
    assert_eq!(cursor, hidden());
    let mut d = LeashedCamera::new(0);
    d.ignore_mouse = true;
    let mut cursor = shown();
    d.toggle_camera_lock(&mut cursor, true, true);
    assert!(!d.ignore_mouse);
    assert_eq!(cursor, hidden());
}

#[test]
fn toggle_puts_a_stray_pointer_in_step() {
    let mut c = LeashedCamera::new(0);
    let mut cursor = shown();
    c.toggle_camera_lock(&mut cursor, true, true);
    assert!(c.ignore_mouse);
    assert_eq!(cursor, shown());
    let mut odd = Cursor { grab_mode: CursorGrabMode::Locked, visible: true };
    c.toggle_camera_lock(&mut odd, true, true);
    assert!(!c.ignore_mouse);
    assert_eq!(odd, hidden());
}

#[test]
fn toggle_without_the_key_does_nothing() {
    let mut c = LeashedCamera::new(0);
    let mut cursor = hidden();
    c.toggle_camera_lock(&mut cursor, true, false);
    assert!(!c.ignore_mouse);
    assert_eq!(cursor, hidden());
}

#[test]
fn free_ray_leaves_the_whole_leash() {
    assert_eq!(raycast_camera(&vec![]), ONE);
    assert_eq!(raycast_camera(&vec![hit(true, 100_000), hit(true, 200_000)]), ONE);
}

#[test]
fn nearest_solid_hit_shortens_the_leash() {
    let hits = vec![hit(true, 100_000), hit(false, 600_000), hit(false, 400_000), hit(true, 50_000)];
    assert_eq!(raycast_camera(&hits), 400_000);
    assert_eq!(raycast_camera(&vec![hit(false, 250_000)]), 250_000);
}

#[test]
fn time_of_impact_is_held_between_zero_and_one() {
    assert_eq!(raycast_camera(&vec![hit(false, 1_700_000)]), ONE);
    assert_eq!(raycast_camera(&vec![hit(false, -200_000)]), 0);
    assert_eq!(raycast_camera(&vec![hit(false, -200_000), hit(false, 300_000)]), 0);
}

#[test]
fn leash_length_scales_the_distance() {
    let c = LeashedCamera::new(0);
    assert_eq!(c.leash_length(400_000), 12 * ONE);
    assert_eq!(c.leash_length(ONE), 30 * ONE);
    assert_eq!(c.leash_length(0), 0);
}
