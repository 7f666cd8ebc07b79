use pipeviewer::timer::{Timer, REPORT_PERIOD_NANOS};

#[test]
fn new_timer_is_ready_with_nothing_to_count_down() {
    let timer = Timer::new();
    assert!(timer.is_ready());
    assert_eq!(timer.countdown(), 0);
    assert_eq!(timer.delta(), 0);
    assert_eq!(timer.period(), 1_000_000_000);
    assert_eq!(REPORT_PERIOD_NANOS, 1_000_000_000);
}

#[test]
fn first_advance_with_time_gone_starts_the_countdown() {
    let mut timer = Timer::new();
    timer.advance(1);
    assert!(timer.is_ready());
    assert_eq!(timer.delta(), 1);
    assert_eq!(timer.countdown(), 1_000_000_000);
}

#[test]
fn first_advance_with_no_time_gone_leaves_the_countdown_empty() {
    let mut timer = Timer::new();
    timer.advance(0);
    assert!(timer.is_ready());
    assert_eq!(timer.delta(), 0);
    assert_eq!(timer.countdown(), 0);
}

#[test]
fn countdown_gives_what_has_gone() {
    let mut timer = Timer::new();
    timer.advance(5);
    timer.acknowledge();
    assert!(!timer.is_ready());
    timer.advance(400_000_000);
    assert!(!timer.is_ready());
    assert_eq!(timer.delta(), 400_000_000);
    assert_eq!(timer.countdown(), 600_000_000);
    timer.advance(599_999_999);
    assert!(!timer.is_ready());
    assert_eq!(timer.countdown(), 1);
}

#[test]
fn countdown_that_is_met_exactly_does_not_go_off() {
    let mut timer = Timer::new();
    timer.advance(5);
    timer.acknowledge();
    timer.advance(1_000_000_000);
    assert!(!timer.is_ready());
    assert_eq!(timer.countdown(), 0);
}

#[test]
fn countdown_that_is_passed_goes_off_and_starts_again() {
    let mut timer = Timer::new();
    timer.advance(5);
    timer.acknowledge();
    timer.advance(1_000_000_001);
    assert!(timer.is_ready());
    assert_eq!(timer.delta(), 1_000_000_001);
    assert_eq!(timer.countdown(), 1_000_000_000);
}

#[test]
fn ready_stays_up_until_acknowledged() {
    let mut timer = Timer::new();
    timer.advance(7);
    timer.advance(3);
    assert!(timer.is_ready());
    assert_eq!(timer.countdown(), 999_999_997);
    timer.acknowledge();
    assert!(!timer.is_ready());
    assert_eq!(timer.countdown(), 999_999_997);
    assert_eq!(timer.delta(), 3);
}

#[test]
fn advance_takes_the_longest_span() {
    let mut timer = Timer::new();
    timer.advance(u128::MAX);
    assert!(timer.is_ready());
    assert_eq!(timer.delta(), u128::MAX);
    assert_eq!(timer.countdown(), 1_000_000_000);
}

#[test]
fn update_follows_the_clock() {
    let mut timer = Timer::new();
    timer.acknowledge();
    timer.update();
    let delta = timer.delta();
    if delta == 0 {
        assert!(!timer.is_ready());
        assert_eq!(timer.countdown(), 0);
    } else {
        assert!(timer.is_ready());
        assert_eq!(timer.countdown(), 1_000_000_000);
    }
    timer.acknowledge();
    let before = timer.countdown();
    timer.update();
    let delta = timer.delta();
    if delta > before {
        assert!(timer.is_ready());
        assert_eq!(timer.countdown(), 1_000_000_000);
    } else {
        assert!(!timer.is_ready());
        assert_eq!(timer.countdown(), before - delta);
    }
}
