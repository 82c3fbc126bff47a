use skirmish_core::timer::{GameTimer, TimerMode};

#[test]
fn once_timer_finishes_on_the_completing_tick() {
    let mut t = GameTimer::from_millis(100, TimerMode::Once);
    assert!(!t.finished());
    t.tick(60);
    assert!(!t.finished());
    assert!(!t.just_finished());
    assert_eq!(t.elapsed_ms, 60);
    t.tick(40);
    assert!(t.finished());
    assert!(t.just_finished());
    assert_eq!(t.elapsed_ms, 100);
}

#[test]
fn once_timer_stays_finished_without_reporting_again() {
    let mut t = GameTimer::from_millis(50, TimerMode::Once);
    t.tick(80);
    assert!(t.just_finished());
    t.tick(10);
    assert!(t.finished());
    assert!(!t.just_finished());
    assert_eq!(t.elapsed_ms, 50);
}

#[test]
fn once_timer_clamps_elapsed_at_duration() {
    let mut t = GameTimer::from_millis(30, TimerMode::Once);
    t.tick(1000);
    assert_eq!(t.elapsed_ms, 30);
    assert!(t.finished());
}

#[test]
fn repeating_timer_wraps_past_its_duration() {
    let mut t = GameTimer::from_millis(100, TimerMode::Repeating);
    t.tick(250);
    assert!(t.finished());
    assert!(t.just_finished());
    assert_eq!(t.elapsed_ms, 50);
    t.tick(30);
    assert!(!t.finished());
    assert!(!t.just_finished());
    assert_eq!(t.elapsed_ms, 80);
    t.tick(20);
    assert!(t.just_finished());
    assert_eq!(t.elapsed_ms, 0);
}

#[test]
fn paused_timer_does_not_advance() {
    let mut t = GameTimer::from_millis(100, TimerMode::Once);
    t.tick(40);
    t.pause();
    t.tick(100);
    assert_eq!(t.elapsed_ms, 40);
    assert!(!t.finished());
    t.unpause();
    t.tick(60);
    assert!(t.finished());
}

#[test]
fn reset_rewinds_a_finished_timer() {
    let mut t = GameTimer::from_millis(20, TimerMode::Once);
    t.tick(25);
    assert!(t.finished());
    t.reset();
    assert!(!t.finished());
    assert!(!t.just_finished());
    assert_eq!(t.elapsed_ms, 0);
    t.tick(5);
    assert_eq!(t.elapsed_ms, 5);
    assert!(!t.finished());
}
