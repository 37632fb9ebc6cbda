use parkour_core::timing::{countdown_timer, Countdown, MapDuration, COUNTDOWN};

const SECOND: u64 = 1_000_000;

#[test]
fn timer_measures_from_its_start() {
    let t = MapDuration::new(5 * SECOND);
    assert_eq!(t.start, 5 * SECOND);
    assert_eq!(t.end, None);
    assert_eq!(t.elapsed(5 * SECOND), 0);
    assert_eq!(t.elapsed(7 * SECOND + 1), 2 * SECOND + 1);
}

#[test]
fn stopped_timer_keeps_its_time() {
    let mut t = MapDuration::new(5 * SECOND);
    t.stop(9 * SECOND);
    assert_eq!(t.end, Some(9 * SECOND));
    assert_eq!(t.elapsed(9 * SECOND), 4 * SECOND);
    assert_eq!(t.elapsed(100 * SECOND), 4 * SECOND);
}

#[test]
fn stopping_again_keeps_the_end() {
    let mut t = MapDuration::new(SECOND);
    t.stop(2 * SECOND);
    t.stop(4 * SECOND);
    assert_eq!(t, MapDuration { start: SECOND, end: Some(2 * SECOND) });
    assert_eq!(t.elapsed(0), SECOND);
    assert_eq!(t.elapsed(9 * SECOND), SECOND);
    t.stop(0);
    assert_eq!(t, MapDuration { start: SECOND, end: Some(2 * SECOND) });
}

#[test]
fn moment_before_the_start_gives_no_time() {
    let mut t = MapDuration::new(5 * SECOND);
    assert_eq!(t.elapsed(4 * SECOND), 0);
    t.stop(3 * SECOND);
    assert_eq!(t.elapsed(10 * SECOND), 0);
}

#[test]
fn countdown_lasts_three_seconds() {
    assert_eq!(COUNTDOWN, 3 * SECOND);
    let mut c = Countdown::new();
    assert_eq!(c, Countdown { elapsed: 0, finished: false, just_finished: false });
    c.tick(SECOND);
    assert_eq!(c, Countdown { elapsed: SECOND, finished: false, just_finished: false });
    c.tick(SECOND + 999_999);
    assert_eq!(c, Countdown { elapsed: 2_999_999, finished: false, just_finished: false });
    c.tick(1);
    assert_eq!(c, Countdown { elapsed: 3 * SECOND, finished: true, just_finished: true });
    c.tick(SECOND);
    assert_eq!(c, Countdown { elapsed: 3 * SECOND, finished: true, just_finished: false });
    c.tick(0);
    assert_eq!(c, Countdown { elapsed: 3 * SECOND, finished: true, just_finished: false });
}

#[test]
fn long_tick_finishes_the_countdown() {
    let mut c = Countdown::new();
    c.tick(u64::MAX);
    assert_eq!(c, Countdown { elapsed: 3 * SECOND, finished: true, just_finished: true });
    let mut d = Countdown::new();
    d.tick(2 * SECOND);
    d.tick(u64::MAX);
    assert_eq!(d, Countdown { elapsed: 3 * SECOND, finished: true, just_finished: true });
}

#[test]
fn display_shows_what_is_left() {
    let mut c = Countdown::new();
    assert_eq!(c.display_countdown(), Some(3 * SECOND));
    c.tick(1_250_000);
    assert_eq!(c.display_countdown(), Some(1_750_000));
    c.tick(2 * SECOND);
    assert_eq!(c.display_countdown(), None);
}

#[test]
fn timer_starts_when_the_countdown_runs_out() {
    let mut c = Countdown::new();
    let mut timer = None;
    c.tick(2 * SECOND);
    countdown_timer(&c, &mut timer, 20 * SECOND);
    assert_eq!(timer, None);
    c.tick(SECOND);
    countdown_timer(&c, &mut timer, 21 * SECOND);
    assert_eq!(timer, Some(MapDuration { start: 21 * SECOND, end: None }));
    c.tick(SECOND);
    countdown_timer(&c, &mut timer, 22 * SECOND);
    assert_eq!(timer, Some(MapDuration { start: 21 * SECOND, end: None }));
}
