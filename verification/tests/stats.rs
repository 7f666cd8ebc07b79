use crossbeam::channel::unbounded;
use pipeviewer::stats::{Progress, Stats, StatsError, StatsStep};

const SECOND: u128 = 1_000_000_000;

#[test]
fn new_stats_has_counted_nothing() {
    let stats = Stats::new(false);
    assert_eq!(stats.total(), 0);
    assert!(!stats.is_done());
    assert!(!stats.is_silent());
    assert!(Stats::new(true).is_silent());
}

#[test]
fn first_count_renders_however_little_time_has_gone() {
    let mut stats = Stats::new(false);
    let step = stats.observe(4096, 0, 0);
    assert_eq!(
        step,
        Ok(StatsStep::Render(Progress { total: 4096, uptime_secs: 0, count: 4096, delta_nanos: 0 }))
    );
    let mut stats = Stats::new(false);
    let step = stats.observe(1, 17, 0);
    assert_eq!(
        step,
        Ok(StatsStep::Render(Progress { total: 1, uptime_secs: 0, count: 1, delta_nanos: 17 }))
    );
}

#[test]
fn renders_are_more_than_a_period_apart() {
    let mut stats = Stats::new(false);
    assert!(matches!(stats.observe(10, 1000, 0), Ok(StatsStep::Render(_))));
    assert_eq!(stats.observe(10, 400_000_000, 0), Ok(StatsStep::Quiet));
    assert_eq!(stats.observe(10, 400_000_000, 0), Ok(StatsStep::Quiet));
    assert_eq!(stats.observe(10, 200_000_000, 1), Ok(StatsStep::Quiet));
    assert_eq!(
        stats.observe(10, 1, 1),
        Ok(StatsStep::Render(Progress { total: 50, uptime_secs: 1, count: 10, delta_nanos: 1 }))
    );
    assert_eq!(stats.observe(10, SECOND, 2), Ok(StatsStep::Quiet));
    assert_eq!(
        stats.observe(10, 5 * SECOND, 7),
        Ok(StatsStep::Render(Progress {
            total: 70,
            uptime_secs: 7,
            count: 10,
            delta_nanos: 5 * SECOND
        }))
    );
    assert_eq!(stats.total(), 70);
}

#[test]
fn first_render_with_no_time_gone_does_not_start_the_countdown() {
    let mut stats = Stats::new(false);
    assert!(matches!(stats.observe(10, 0, 0), Ok(StatsStep::Render(_))));
    assert!(matches!(stats.observe(10, 1, 0), Ok(StatsStep::Render(_))));
    assert_eq!(stats.observe(10, SECOND, 1), Ok(StatsStep::Quiet));
}

#[test]
fn sentinel_ends_the_stage_with_a_newline_and_no_render() {
    let mut stats = Stats::new(false);
    assert!(matches!(stats.observe(100, 5, 0), Ok(StatsStep::Render(_))));
    assert_eq!(stats.observe(0, 3 * SECOND, 3), Ok(StatsStep::Finished { newline: true }));
    assert!(stats.is_done());
    assert_eq!(stats.total(), 100);
}

#[test]
fn empty_input_gets_the_newline_only() {
    let mut stats = Stats::new(false);
    assert_eq!(stats.observe(0, 12345, 0), Ok(StatsStep::Finished { newline: true }));
    assert!(stats.is_done());
    assert_eq!(stats.total(), 0);
}

#[test]
fn silent_stage_shows_nothing() {
    let mut stats = Stats::new(true);
    assert_eq!(stats.observe(4096, 5, 0), Ok(StatsStep::Quiet));
    assert_eq!(stats.observe(4096, 2 * SECOND, 2), Ok(StatsStep::Quiet));
    assert_eq!(stats.observe(1808, 2 * SECOND, 4), Ok(StatsStep::Quiet));
    assert_eq!(stats.total(), 10000);
    assert_eq!(stats.observe(0, 2 * SECOND, 6), Ok(StatsStep::Finished { newline: false }));
    assert!(stats.is_done());
    assert_eq!(stats.total(), 10000);
}

#[test]
fn silent_stage_with_empty_input_shows_nothing() {
    let mut stats = Stats::new(true);
    assert_eq!(stats.observe(0, 0, 0), Ok(StatsStep::Finished { newline: false }));
}

#[test]
fn total_is_the_sum_of_the_counts() {
    let mut stats = Stats::new(false);
    let counts = [4096usize, 4096, 1808];
    let mut sum = 0;
    for count in counts {
        let _ = stats.observe(count, 100, 0);
        sum += count;
        assert_eq!(stats.total(), sum);
    }
    assert_eq!(stats.total(), 10000);
    assert_eq!(stats.observe(0, 100, 0), Ok(StatsStep::Finished { newline: true }));
    assert_eq!(stats.total(), 10000);
}

#[test]
fn finished_stage_takes_nothing_more() {
    let mut stats = Stats::new(false);
    let _ = stats.observe(5, 1, 0);
    let _ = stats.observe(0, 1, 0);
    assert_eq!(stats.observe(7, 2 * SECOND, 2), Ok(StatsStep::Finished { newline: false }));
    assert_eq!(stats.observe(0, 2 * SECOND, 4), Ok(StatsStep::Finished { newline: false }));
    assert_eq!(stats.account(9, 4), Ok(StatsStep::Finished { newline: false }));
    assert_eq!(stats.total(), 5);
    assert!(stats.is_done());
}

#[test]
fn count_that_does_not_fit_is_an_error_and_changes_nothing() {
    let mut stats = Stats::new(false);
    assert!(matches!(stats.observe(usize::MAX, 5, 0), Ok(StatsStep::Render(_))));
    assert_eq!(stats.total(), usize::MAX);
    assert_eq!(stats.observe(1, 2 * SECOND, 2), Err(StatsError::TotalOverflow));
    assert_eq!(stats.total(), usize::MAX);
    assert!(!stats.is_done());
    assert_eq!(stats.observe(usize::MAX, SECOND, 3), Err(StatsError::TotalOverflow));
    assert_eq!(stats.observe(0, SECOND, 4), Ok(StatsStep::Finished { newline: true }));
    assert_eq!(stats.total(), usize::MAX);
}

#[test]
fn failed_count_does_not_move_the_timer() {
    let mut stats = Stats::new(true);
    assert_eq!(stats.observe(usize::MAX, 5, 0), Ok(StatsStep::Quiet));
    assert_eq!(stats.observe(1, 2 * SECOND, 2), Err(StatsError::TotalOverflow));
    let mut other = Stats::new(false);
    assert!(matches!(other.observe(usize::MAX - 1, 5, 0), Ok(StatsStep::Render(_))));
    assert_eq!(other.observe(2, 2 * SECOND, 2), Err(StatsError::TotalOverflow));
    assert_eq!(other.observe(1, SECOND, 3), Ok(StatsStep::Quiet));
    assert!(matches!(other.observe(0, 1, 3), Ok(StatsStep::Finished { newline: true })));
}

#[test]
fn account_goes_by_the_timer_as_it_stands() {
    let mut stats = Stats::new(false);
    assert_eq!(
        stats.account(3, 9),
        Ok(StatsStep::Render(Progress { total: 3, uptime_secs: 9, count: 3, delta_nanos: 0 }))
    );
    assert_eq!(stats.account(4, 9), Ok(StatsStep::Quiet));
    assert_eq!(stats.total(), 7);
    assert_eq!(stats.account(0, 9), Ok(StatsStep::Finished { newline: true }));
}

#[test]
fn receive_takes_counts_in_order_until_the_sentinel() {
    let (tx, rx) = unbounded();
    tx.send(4096usize).unwrap();
    tx.send(1808usize).unwrap();
    tx.send(0usize).unwrap();
    let mut stats = Stats::new(true);
    assert_eq!(stats.receive(&rx), Ok(StatsStep::Quiet));
    assert_eq!(stats.total(), 4096);
    assert_eq!(stats.receive(&rx), Ok(StatsStep::Quiet));
    assert_eq!(stats.total(), 5904);
    assert_eq!(stats.receive(&rx), Ok(StatsStep::Finished { newline: false }));
    assert!(stats.is_done());
    assert_eq!(stats.total(), 5904);
}

#[test]
fn receive_renders_the_first_count() {
    let (tx, rx) = unbounded();
    tx.send(42usize).unwrap();
    tx.send(0usize).unwrap();
    let mut stats = Stats::new(false);
    match stats.receive(&rx) {
        Ok(StatsStep::Render(progress)) => {
            assert_eq!(progress.total, 42);
            assert_eq!(progress.count, 42);
        }
        other => panic!("no progress line for the first count: {:?}", other),
    }
    assert_eq!(stats.receive(&rx), Ok(StatsStep::Finished { newline: true }));
}

#[test]
fn receive_leaves_the_channel_alone_once_finished() {
    let (tx, rx) = unbounded();
    tx.send(0usize).unwrap();
    tx.send(7usize).unwrap();
    let mut stats = Stats::new(false);
    assert_eq!(stats.receive(&rx), Ok(StatsStep::Finished { newline: true }));
    assert_eq!(stats.receive(&rx), Ok(StatsStep::Finished { newline: false }));
    assert_eq!(rx.try_recv(), Ok(7));
    assert_eq!(stats.total(), 0);
}

#[test]
fn receive_from_a_closed_channel_is_an_error() {
    let (tx, rx) = unbounded::<usize>();
    tx.send(5).unwrap();
    drop(tx);
    let mut stats = Stats::new(true);
    assert_eq!(stats.receive(&rx), Ok(StatsStep::Quiet));
    assert_eq!(stats.receive(&rx), Err(StatsError::ChannelClosed));
    assert_eq!(stats.total(), 5);
    assert!(!stats.is_done());
}

#[test]
fn receive_of_a_count_that_does_not_fit_is_an_error() {
    let (tx, rx) = unbounded();
    tx.send(usize::MAX).unwrap();
    tx.send(1usize).unwrap();
    tx.send(0usize).unwrap();
    let mut stats = Stats::new(true);
    assert_eq!(stats.receive(&rx), Ok(StatsStep::Quiet));
    assert_eq!(stats.receive(&rx), Err(StatsError::TotalOverflow));
    assert_eq!(stats.total(), usize::MAX);
    assert_eq!(stats.receive(&rx), Ok(StatsStep::Finished { newline: false }));
}
