use chrono::NaiveDateTime;
use doit::Timespan;

fn ts(s: &str, fmt: &str) -> i64 {
    NaiveDateTime::parse_from_str(s, fmt)
        .unwrap()
        .and_utc()
        .timestamp()
}

#[test]
fn test_new_if_result_ok() {
    let test_cases = [
        ("2025-09-01 00:00:00", "2025-09-01 00:00:01"),
        ("2025-09-01 00:00:00", "2025-09-01 00:01:00"),
        ("2025-09-01 00:00:00", "2025-09-01 01:00:00"),
        ("2025-09-01 00:00:00", "2025-09-02 00:00:00"),
        ("2025-09-01 00:00:00", "2025-10-01 00:00:00"),
        ("2025-09-01 00:00:00", "2026-09-01 00:00:00"),
    ];
    for (from_str, to_str) in test_cases {
        let from = ts(from_str, "%Y-%m-%d %H:%M:%S");
        let to = ts(to_str, "%Y-%m-%d %H:%M:%S");
        assert!(
            Timespan::new(from, to).is_ok(),
            "from: {from_str}, to: {to_str}"
        );
    }
}

#[test]
fn test_new_if_result_err() {
    let test_cases = [
        ("2025-09-01 00:00:00", "2025-09-01 00:00:00"),
        ("2025-09-01 00:00:01", "2025-09-01 00:00:00"),
        ("2025-09-01 00:01:00", "2025-09-01 00:00:00"),
        ("2025-09-01 01:00:00", "2025-09-01 00:00:00"),
        ("2025-09-02 00:00:00", "2025-09-01 00:00:00"),
        ("2025-10-01 00:00:00", "2025-10-01 00:00:00"),
        ("2026-09-01 00:00:00", "2026-09-01 00:00:00"),
    ];
    for (from_str, to_str) in test_cases {
        let from = ts(from_str, "%Y-%m-%d %H:%M:%S");
        let to = ts(to_str, "%Y-%m-%d %H:%M:%S");
        assert!(
            Timespan::new(from, to).is_err(),
            "from: {from_str}, to: {to_str}"
        );
    }
}

#[test]
fn test_has_expired() {
    let test_cases = [
        ("2025-09-01 00:00", "2025-09-01 12:00", "2025-09-01 00:00", false),
        ("2025-09-01 00:00", "2025-09-01 12:00", "2025-09-01 06:00", false),
        ("2025-09-01 00:00", "2025-09-01 12:00", "2025-09-01 12:00", true),
        ("2025-09-01 00:00", "2025-09-01 12:00", "2025-08-31 00:00", false),
        ("2025-09-01 00:00", "2025-09-01 12:00", "2025-09-01 18:00", true),
    ];
    for (from_str, to_str, current_str, expected) in test_cases {
        let from = ts(from_str, "%Y-%m-%d %H:%M");
        let to = ts(to_str, "%Y-%m-%d %H:%M");
        let current_time = ts(current_str, "%Y-%m-%d %H:%M");
        let timespan = Timespan::new(from, to).unwrap();
        assert_eq!(timespan.has_expired(current_time), expected);
    }
}

#[test]
fn test_progress() {
    let from = ts("2025-09-01 00:00", "%Y-%m-%d %H:%M");
    let to = ts("2025-09-01 07:59", "%Y-%m-%d %H:%M");
    let current_time = ts("2025-09-01 03:59", "%Y-%m-%d %H:%M");
    let timespan = Timespan::new(from, to).unwrap();
    let progress = timespan.progress(current_time);
    assert_eq!(timespan, progress.timespan);
    assert_eq!(current_time, progress.current_time);
}

#[test]
fn test_format_from() {
    let from = ts("2025-09-01 00:00", "%Y-%m-%d %H:%M");
    let to = ts("2025-09-01 07:59", "%Y-%m-%d %H:%M");
    let timespan = Timespan::new(from, to).unwrap();
    assert_eq!(timespan.format_from(), "00:00");
}

#[test]
fn test_format_to() {
    let fmt = "%Y-%m-%d %H:%M";
    let from = ts("2025-09-01 00:00", fmt);
    let to = ts("2025-09-01 07:59", fmt);
    let timespan = Timespan::new(from, to).unwrap();
    assert_eq!(timespan.format_to(), "07:59");
}

#[test]
fn test_format_from_with_string() {
    let fmt = "%Y-%m-%d %H:%M:%S";
    let from = ts("2025-09-01 00:00:00", fmt);
    let to = ts("2025-09-01 07:59:59", fmt);
    let timespan = Timespan::new(from, to).unwrap();
    assert_eq!(
        timespan.format_from_with_string("%Y-%m-%d %H:%M:%S"),
        "2025-09-01 00:00:00"
    );
    assert_eq!(timespan.format_from_with_string("%H:%M:%S"), "00:00:00");
}

#[test]
fn test_format_duration() {
    let fmt = "%Y-%m-%d %H:%M:%S";
    let from = ts("2025-09-01 00:00:00", fmt);
    let to = ts("2025-09-01 07:59:59", fmt);
    let timespan = Timespan::new(from, to).unwrap();
    assert_eq!(timespan.format_duration(), "7 h 59 m");
}

#[test]
fn test_format_to_with_string() {
    let fmt = "%Y-%m-%d %H:%M:%S";
    let from = ts("2025-09-01 00:00:00", fmt);
    let to = ts("2025-09-01 07:59:59", fmt);
    let timespan = Timespan::new(from, to).unwrap();
    assert_eq!(
        timespan.format_to_with_string("%Y-%m-%d %H:%M:%S"),
        "2025-09-01 07:59:59"
    );
    assert_eq!(timespan.format_to_with_string("%H:%M:%S"), "07:59:59");
}

#[test]
fn test_try_format_with_string() {
    let timespan = Timespan::new(0, 100).unwrap();
    // an invalid strftime specifier is reported rather than rendered
    assert_eq!(timespan.try_format_from_with_string("%Q"), None);
    assert_eq!(
        timespan.try_format_from_with_string("%H:%M").as_deref(),
        Some("00:00")
    );
    assert_eq!(
        timespan.try_format_to_with_string("%H:%M:%S").as_deref(),
        Some("00:01:40")
    );
}

#[test]
fn test_duration_strings() {
    let minute: i64 = 60;
    let hour: i64 = 3600;
    let day: i64 = 86400;
    let test_cases = [
        (45 * minute, "45 m"),
        (5 * hour, "5 h"),
        (5 * hour + 30 * minute, "5 h 30 m"),
        (3 * day, "3 d"),
        (3 * day + 12 * hour, "3 d 12 h"),
        (10 * day, "10 d"),
        (30 * day, "30 d"),
        (300 * day, "300 d"),
        (400 * day, "1 y"),
        (800 * day, "2 y"),
    ];
    for (duration, expected) in test_cases {
        assert_eq!(Timespan::format_duration_string(duration), expected);
    }
}

#[test]
fn test_format_duration_scenarios() {
    assert_eq!(Timespan::format_duration_string(95 * 60), "1 h 35 m");
    assert_eq!(Timespan::format_duration_string(50 * 60), "50 m");
    assert_eq!(
        Timespan::format_duration_string(3 * 86400 + 12 * 3600),
        "3 d 12 h"
    );
    assert_eq!(Timespan::format_duration_string(800 * 86400), "2 y");
}

#[test]
fn test_format_hours() {
    let duration: i64 = 5 * 3600;
    assert_eq!(Timespan::format_hours(duration), "5 h");
    let duration: i64 = 5 * 3600 + 30 * 60;
    assert_eq!(Timespan::format_hours(duration), "5 h 30 m");
}

#[test]
fn test_format_days() {
    let duration: i64 = 3 * 86400;
    assert_eq!(Timespan::format_days(duration), "3 d");
    let duration: i64 = 3 * 86400 + 12 * 3600;
    assert_eq!(Timespan::format_days(duration), "3 d 12 h");
}

#[test]
fn format_string() {
    let test_cases = [
        ("2025-09-01 00:00", "2025-09-01 12:00", "%H:%M"),
        ("2025-09-01 00:00", "2025-09-01 23:59", "%H:%M"),
        ("2025-09-01 00:00", "2025-09-02 00:00", "%m-%d %H:%M"),
        ("2025-09-01 00:00", "2025-09-03 23:59", "%m-%d %H:%M"),
        ("2025-09-01 00:00", "2025-09-30 23:59", "%Y-%m-%d"),
    ];
    for (from_str, to_str, expected) in test_cases {
        let from = ts(from_str, "%Y-%m-%d %H:%M");
        let to = ts(to_str, "%Y-%m-%d %H:%M");
        let timespan = Timespan::new(from, to).unwrap();
        assert_eq!(timespan.format_string(), expected);
    }
}
