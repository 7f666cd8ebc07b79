use pipeviewer::stats::Progress;
use pipeviewer::text::TimeOutput;

#[test]
fn as_time_of_zero() {
    assert_eq!(0u64.as_time(), "0:00:00");
}

#[test]
fn as_time_pads_minutes_and_seconds() {
    assert_eq!(5u64.as_time(), "0:00:05");
    assert_eq!(59u64.as_time(), "0:00:59");
    assert_eq!(60u64.as_time(), "0:01:00");
    assert_eq!(3599u64.as_time(), "0:59:59");
    assert_eq!(3600u64.as_time(), "1:00:00");
    assert_eq!(3661u64.as_time(), "1:01:01");
    assert_eq!(86399u64.as_time(), "23:59:59");
}

#[test]
fn as_time_lets_hours_grow() {
    assert_eq!(36000u64.as_time(), "10:00:00");
    assert_eq!(360000u64.as_time(), "100:00:00");
    assert_eq!(u64::MAX.as_time(), "5124095576030431:00:15");
}

#[test]
fn as_time_is_what_the_format_gives() {
    for secs in [0u64, 1, 9, 10, 61, 600, 3601, 7325, 40000, 123456789] {
        let (hours, left) = (secs / 3600, secs % 3600);
        let (minutes, seconds) = (left / 60, left % 60);
        assert_eq!(secs.as_time(), format!("{}:{:02}:{:02}", hours, minutes, seconds));
    }
}

#[test]
fn total_is_shown_in_decimal() {
    for (total, expected) in [
        (0usize, "0 "),
        (9, "9 "),
        (10, "10 "),
        (12345, "12345 "),
        (1000000, "1000000 "),
        (4294967295, "4294967295 "),
    ] {
        let progress = Progress { total, uptime_secs: 0, count: 0, delta_nanos: 0 };
        assert_eq!(progress.text("0").bytes, expected);
    }
    let progress = Progress { total: usize::MAX, uptime_secs: 0, count: 0, delta_nanos: 0 };
    assert_eq!(progress.text("0").bytes, format!("{} ", usize::MAX));
}

#[test]
fn progress_text_has_three_segments() {
    let progress =
        Progress { total: 10000, uptime_secs: 3661, count: 1808, delta_nanos: 500_000_000 };
    let text = progress.text("3616");
    assert_eq!(text.bytes, "10000 ");
    assert_eq!(text.elapsed, "1:01:01");
    assert_eq!(text.rate, " [3616b/s]");
    let line = format!("{}{}{}", text.bytes, text.elapsed, text.rate);
    assert_eq!(line, "10000 1:01:01 [3616b/s]");
}

#[test]
fn progress_text_keeps_the_rate_figures_as_given() {
    let progress = Progress { total: 0, uptime_secs: 0, count: 0, delta_nanos: 0 };
    let text = progress.text("inf");
    assert_eq!(text.bytes, "0 ");
    assert_eq!(text.elapsed, "0:00:00");
    assert_eq!(text.rate, " [infb/s]");
    let text = progress.text("");
    assert_eq!(text.rate, " [b/s]");
}
