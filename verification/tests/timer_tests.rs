use animal_arcade::timer::{Timer, TimerMode};

#[test]
fn once_timer_accumulates_and_latches() {
    let mut t = Timer::new(1000, TimerMode::Once);
    assert!(!t.finished());
    assert!(!t.just_finished());
    t.tick(400);
    assert_eq!(t.elapsed_ms, 400);
    assert!(!t.finished());
    assert_eq!(t.fraction_permille(), 400);
    t.tick(600);
    assert!(t.finished());
    assert!(t.just_finished());
    assert_eq!(t.fraction_permille(), 1000);
    // finished stays, just_finished is only the completing tick
    t.tick(1);
    assert!(t.finished());
    assert!(!t.just_finished());
    assert_eq!(t.elapsed_ms, 1000);
}

#[test]
fn once_timer_finishes_exactly_at_duration() {
    let mut t = Timer::new(500, TimerMode::Once);
    t.tick(499);
    assert!(!t.finished());
    t.tick(1);
    assert!(t.finished());
    assert!(t.just_finished());
}

#[test]
fn repeating_timer_wraps_and_never_latches() {
    let mut t = Timer::new(1000, TimerMode::Repeating);
    t.tick(1500);
    assert!(t.finished());
    assert!(t.just_finished());
    assert_eq!(t.elapsed_ms, 500);
    t.tick(300);
    assert!(!t.finished());
    assert!(!t.just_finished());
    assert_eq!(t.elapsed_ms, 800);
    t.tick(200);
    assert!(t.finished());
    assert!(t.just_finished());
    assert_eq!(t.elapsed_ms, 0);
}

#[test]
fn repeating_timer_resets_once_per_duration() {
    let mut t = Timer::new(100, TimerMode::Repeating);
    // 250 ms of accumulation in one tick: fraction drops the carry and
    // lands at 250 mod 100
    t.tick(250);
    assert_eq!(t.elapsed_ms, 50);
    assert!(t.just_finished());
}

#[test]
fn zero_duration_timer_reports_full_fraction_and_finishes_on_first_real_tick() {
    let mut t = Timer::new(0, TimerMode::Once);
    assert_eq!(t.fraction_permille(), 1000);
    t.tick(0);
    assert!(!t.just_finished());
    t.tick(5);
    assert!(t.just_finished());
    assert!(t.finished());
    assert_eq!(t.fraction_permille(), 1000);
}

#[test]
fn reset_forgets_accumulation() {
    let mut t = Timer::new(300, TimerMode::Once);
    t.tick(300);
    assert!(t.finished());
    t.reset();
    assert!(!t.finished());
    assert!(!t.just_finished());
    assert_eq!(t.elapsed_ms, 0);
    t.tick(299);
    assert!(!t.finished());
}

#[test]
fn fraction_remaining_complements_fraction() {
    let mut t = Timer::new(1000, TimerMode::Once);
    t.tick(250);
    assert_eq!(t.fraction_permille(), 250);
    assert_eq!(t.fraction_remaining_permille(), 750);
    assert_eq!(t.remaining_ms(), 750);
}
