use chrono::NaiveDateTime;
use doit::theme::RenderContext;

fn ts(s: &str, fmt: &str) -> i64 {
    NaiveDateTime::parse_from_str(s, fmt)
        .unwrap()
        .and_utc()
        .timestamp()
}

fn ctx(start: &str, end: &str, current: &str) -> RenderContext {
    let fmt = "%Y-%m-%d %H:%M:%S";
    RenderContext::new(ts(start, fmt), ts(end, fmt), None, ts(current, fmt), 0)
}

#[test]
fn test_get_time_format_24h_within() {
    let context = ctx("2025-08-16 10:00:00", "2025-08-16 18:00:00", "2025-08-16 10:00:00");
    assert_eq!(context.get_time_format(), "%H:%M");
    assert_eq!(context.format_start_time(), "10:00");
    assert_eq!(context.format_end_time(), "18:00");
}

#[test]
fn test_get_time_format_7d_within() {
    let context = ctx("2025-08-16 10:00:00", "2025-08-20 18:00:00", "2025-08-16 10:00:00");
    assert_eq!(context.get_time_format(), "%m-%d %H:%M");
    assert_eq!(context.format_start_time(), "08-16 10:00");
    assert_eq!(context.format_end_time(), "08-20 18:00");
}

#[test]
fn test_get_time_format_over_7d() {
    let context = ctx("2025-08-01 10:00:00", "2025-09-15 18:00:00", "2025-08-01 10:00:00");
    assert_eq!(context.get_time_format(), "%Y-%m-%d");
    assert_eq!(context.format_start_time(), "2025-08-01");
    assert_eq!(context.format_end_time(), "2025-09-15");
}

#[test]
fn test_get_time_format_exactly_24h() {
    let context = ctx("2025-08-16 10:00:00", "2025-08-17 10:00:00", "2025-08-16 10:00:00");
    // a window of exactly a day is no longer "under 24 hours"
    assert_eq!(context.get_time_format(), "%m-%d %H:%M");
    assert_eq!(context.format_start_time(), "08-16 10:00");
    assert_eq!(context.format_end_time(), "08-17 10:00");
}

#[test]
fn test_get_time_format_exactly_7d() {
    let context = ctx("2025-08-16 10:00:00", "2025-08-23 10:00:00", "2025-08-16 10:00:00");
    assert_eq!(context.get_time_format(), "%m-%d %H:%M");
    assert_eq!(context.format_start_time(), "08-16 10:00");
    assert_eq!(context.format_end_time(), "08-23 10:00");
}

#[test]
fn test_format_total_time_within_1h() {
    let context = ctx("2025-08-16 10:00:00", "2025-08-16 10:30:00", "2025-08-16 10:00:00");
    assert_eq!(context.format_total_time(), "30m");
}

#[test]
fn test_format_total_time_within_24h() {
    let context = ctx("2025-08-16 10:00:00", "2025-08-16 18:30:00", "2025-08-16 10:00:00");
    assert_eq!(context.format_total_time(), "8h 30m");
}

#[test]
fn test_format_total_time_within_7d() {
    let context = ctx("2025-08-16 10:00:00", "2025-08-19 16:00:00", "2025-08-16 10:00:00");
    assert_eq!(context.format_total_time(), "3d 6h");
}

#[test]
fn test_format_total_time_over_7d() {
    let context = ctx("2025-08-01 10:00:00", "2025-09-15 18:00:00", "2025-08-01 10:00:00");
    assert_eq!(context.format_total_time(), "6w 3d");
}

#[test]
fn test_format_total_time_exactly_1h() {
    let context = ctx("2025-08-16 10:00:00", "2025-08-16 11:00:00", "2025-08-16 10:00:00");
    assert_eq!(context.format_total_time(), "1h");
}

#[test]
fn test_format_total_time_exactly_weeks() {
    let context = ctx("2025-08-01 10:00:00", "2025-08-15 10:00:00", "2025-08-01 10:00:00");
    assert_eq!(context.format_total_time(), "2w");
}

#[test]
fn test_format_total_time_over_365d() {
    let context = ctx("1977-10-31 00:00:00", "2057-10-30 00:00:00", "1977-10-31 00:00:00");
    assert_eq!(context.format_total_time(), "80y 19d");
}

#[test]
fn test_format_total_time_years_with_days() {
    let context = ctx("2023-01-01 00:00:00", "2025-06-15 00:00:00", "2023-01-01 00:00:00");
    assert_eq!(context.format_total_time(), "2y 166d");
}

#[test]
fn test_elapsed_time_before_start() {
    let context = ctx("2025-08-16 14:00:00", "2025-08-16 14:30:00", "2025-08-16 13:30:00");
    assert_eq!(context.format_elapsed_time(), "0 m");
    assert_eq!(context.format_remaining_time(), "30 m");
}

#[test]
fn test_elapsed_time_after_end() {
    let context = ctx("2025-08-16 14:00:00", "2025-08-16 14:30:00", "2025-08-16 15:00:00");
    assert_eq!(context.format_elapsed_time(), "30 m");
    assert_eq!(context.format_remaining_time(), "0 m");
}

#[test]
fn test_elapsed_time_during_period() {
    let context = ctx("2025-08-16 14:00:00", "2025-08-16 14:30:00", "2025-08-16 14:10:00");
    assert_eq!(context.format_elapsed_time(), "10 m");
    assert_eq!(context.format_remaining_time(), "20 m");
}

#[test]
fn test_retro_time_format() {
    let context = ctx("2025-08-16 10:00:00", "2025-08-16 18:00:00", "2025-08-16 10:00:00");

    // Retro theme should always use full YYYY-mm-dd HH:MM:SS format
    assert_eq!(context.format_start_time_retro(), "2025-08-16 10:00:00");
    assert_eq!(context.format_end_time_retro(), "2025-08-16 18:00:00");

    // While regular format should be dynamic (within 24h = HH:MM)
    assert_eq!(context.format_start_time(), "10:00");
    assert_eq!(context.format_end_time(), "18:00");
}
