use filler_view::playback::{Direction, PlaybackEngine};

#[test]
fn initial_state_is_live_forward_from_zero() {
    let e = PlaybackEngine::new(7);
    assert_eq!(e.cursor, 0);
    assert!(!e.paused);
    assert_eq!(e.speed, 25);
    assert_eq!(e.direction, Direction::Forward);
    assert_eq!(e.last_advance, 7);
}

#[test]
fn stepping_forward_stops_at_the_newest_frame() {
    // paused at cursor 0 with 5 frames buffered
    let mut e = PlaybackEngine::new(0);
    e.toggle_pause();
    assert!(e.paused);
    for _ in 0..4 {
        e.step_forward(5);
    }
    assert_eq!(e.cursor, 4);
    // further steps never exceed the last available frame
    e.step_forward(5);
    e.step_forward(5);
    assert_eq!(e.cursor, 4);
}

#[test]
fn stepping_back_from_zero_stays_at_zero() {
    let mut e = PlaybackEngine::new(0);
    e.step_back();
    assert_eq!(e.cursor, 0);
    assert!(e.paused);
}

#[test]
fn step_events_pause_playback() {
    let mut e = PlaybackEngine::new(0);
    e.step_forward(3);
    assert!(e.paused);
    let mut e2 = PlaybackEngine::new(0);
    e2.step_back();
    assert!(e2.paused);
}

#[test]
fn reset_pauses_and_rewinds() {
    let mut e = PlaybackEngine::new(0);
    e.step_forward(5);
    e.step_forward(5);
    e.reset();
    assert_eq!(e.cursor, 0);
    assert!(e.paused);
}

#[test]
fn speed_scale_is_clamped_to_5_and_100() {
    let mut e = PlaybackEngine::new(0);
    for _ in 0..30 {
        e.speed_up();
    }
    assert_eq!(e.speed, 5);
    for _ in 0..30 {
        e.speed_down();
    }
    assert_eq!(e.speed, 100);
}

#[test]
fn forward_autoplay_respects_the_threshold() {
    // speed 100 percent: one step per 500 ms of synthetic clock, at most
    let mut e = PlaybackEngine::new(0);
    while e.speed < 100 {
        e.speed_down();
    }
    let half_second: u64 = 500_000_000;
    e.on_tick(100_000_000, 5);
    assert_eq!(e.cursor, 0);
    e.on_tick(half_second - 1, 5);
    assert_eq!(e.cursor, 0);
    e.on_tick(half_second, 5);
    assert_eq!(e.cursor, 1);
    // the advance reset the cadence clock: no second step this interval
    e.on_tick(half_second + 1, 5);
    assert_eq!(e.cursor, 1);
    e.on_tick(2 * half_second - 1, 5);
    assert_eq!(e.cursor, 1);
    e.on_tick(2 * half_second, 5);
    assert_eq!(e.cursor, 2);
}

#[test]
fn forward_autoplay_stalls_at_the_newest_frame() {
    let mut e = PlaybackEngine::new(0);
    e.on_tick(u64::MAX / 2, 1);
    assert_eq!(e.cursor, 0);
    e.on_tick(u64::MAX / 2, 0);
    assert_eq!(e.cursor, 0);
}

#[test]
fn paused_ticks_change_nothing() {
    let mut e = PlaybackEngine::new(0);
    e.toggle_pause();
    e.on_tick(u64::MAX / 2, 5);
    assert_eq!(e.cursor, 0);
    assert_eq!(e.last_advance, 0);
}

#[test]
fn backward_autoplay_is_not_cadence_limited_once_triggered() {
    let mut e = PlaybackEngine::new(0);
    e.step_forward(5);
    e.step_forward(5);
    e.toggle_pause();
    assert!(!e.paused);
    e.set_direction(Direction::Backward);
    let t: u64 = 10_000_000_000;
    e.on_tick(t, 5);
    assert_eq!(e.cursor, 1);
    // no clock reset on a backward step: the very next tick steps again
    e.on_tick(t + 1, 5);
    assert_eq!(e.cursor, 0);
    e.on_tick(t + 2, 5);
    assert_eq!(e.cursor, 0);
}

#[test]
fn setting_direction_does_not_move_the_cursor() {
    let mut e = PlaybackEngine::new(0);
    e.step_forward(5);
    e.set_direction(Direction::Backward);
    assert_eq!(e.cursor, 1);
    e.set_direction(Direction::Forward);
    assert_eq!(e.cursor, 1);
}
