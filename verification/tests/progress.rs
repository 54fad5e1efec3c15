use chrono::NaiveDateTime;
use doit::{Progress, Timespan};

fn ts(s: &str, fmt: &str) -> i64 {
    NaiveDateTime::parse_from_str(s, fmt)
        .unwrap()
        .and_utc()
        .timestamp()
}

#[test]
fn test_new() {
    let fmt = "%Y-%m-%d %H:%M:%S";
    let from = ts("2025-09-01 00:00:00", fmt);
    let to = ts("2025-09-01 07:59:59", fmt);
    let timespan = Timespan::new(from, to).unwrap();
    let hour: i64 = 3600;
    let minute: i64 = 60;

    // current_time before from
    let progress = Progress::new(timespan, from - hour);
    assert_eq!(progress.ratio, 0);
    assert_eq!(progress.elapsed, 0);
    assert_eq!(progress.remaining, timespan.duration);

    // current_time at from
    let progress = Progress::new(timespan, from);
    assert_eq!(progress.ratio, 0);
    assert_eq!(progress.elapsed, 0);
    assert_eq!(progress.remaining, timespan.duration);

    // current_time between from and to
    let progress = Progress::new(timespan, from + 4 * minute + 48);
    assert_eq!(progress.ratio, 1);
    assert_eq!(progress.elapsed, 4 * minute + 48);
    assert_eq!(progress.remaining, 7 * hour + 55 * minute + 11);

    let progress = Progress::new(timespan, from + 24 * minute);
    assert_eq!(progress.ratio, 5);
    assert_eq!(progress.elapsed, 24 * minute);
    assert_eq!(progress.remaining, 7 * hour + 35 * minute + 59);

    // current_time between from and to
    let progress = Progress::new(timespan, from + 4 * hour);
    assert_eq!(progress.ratio, 50);
    assert_eq!(progress.elapsed, 4 * hour);
    assert_eq!(progress.remaining, 3 * hour + 59 * minute + 59);

    // current_time at to
    let progress = Progress::new(timespan, to);
    assert_eq!(progress.ratio, 100);
    assert_eq!(progress.elapsed, timespan.duration);
    assert_eq!(progress.remaining, 0);

    // current_time after to
    let progress = Progress::new(timespan, to + hour);
    assert_eq!(progress.ratio, 100);
    assert_eq!(progress.elapsed, timespan.duration);
    assert_eq!(progress.remaining, 0);
}

#[test]
fn test_half_way_scenario() {
    let fmt = "%Y-%m-%d %H:%M:%S";
    let from = ts("2025-01-01 00:00:00", fmt);
    let to = ts("2025-01-10 23:59:59", fmt);
    let timespan = Timespan::new(from, to).unwrap();
    let progress = Progress::new(timespan, ts("2025-01-06 00:00:00", fmt));
    assert_eq!(progress.ratio, 50);
    assert!(!progress.is_complete());
}

#[test]
fn test_past_to_scenario() {
    let fmt = "%Y-%m-%d %H:%M:%S";
    let from = ts("2025-01-01 00:00:00", fmt);
    let to = ts("2025-01-10 23:59:59", fmt);
    let timespan = Timespan::new(from, to).unwrap();
    let progress = Progress::new(timespan, ts("2025-01-11 00:00:00", fmt));
    assert_eq!(progress.ratio, 100);
    assert!(progress.is_complete());
}

#[test]
fn test_equal_instants_rejected() {
    let fmt = "%Y-%m-%d %H:%M:%S";
    let x = ts("2025-01-01 00:00:00", fmt);
    match Timespan::new(x, x) {
        Err(doit::error::DoItError::FromAfterTo { from, to }) => {
            assert_eq!(from, x);
            assert_eq!(to, x);
        }
        Ok(_) => panic!("a zero-length window must be rejected"),
    }
}

#[test]
fn test_conservation_everywhere() {
    let timespan = Timespan::new(1000, 87400).unwrap();
    for current in [0, 999, 1000, 1001, 44200, 87399, 87400, 90000] {
        let progress = Progress::new(timespan, current);
        assert_eq!(progress.elapsed + progress.remaining, timespan.duration);
    }
}

#[test]
fn test_ratio_monotone_samples() {
    let timespan = Timespan::new(0, 100000).unwrap();
    let mut last: u8 = 0;
    for current in (-1000..110000).step_by(997) {
        let progress = Progress::new(timespan, current);
        assert!(progress.ratio >= last);
        last = progress.ratio;
    }
}

#[test]
fn test_error_message() {
    let error = doit::error::DoItError::FromAfterTo { from: 30, to: 20 };
    assert_eq!(
        error.message(),
        "the 'to' instant 20 must be after the 'from' instant 30."
    );
}
