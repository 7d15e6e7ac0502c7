use narutils::error::AppError;
use narutils::tempo::{next_start_time, tracked_seconds, worklog_window, UserWorklogsResponse, WorklogResponse};
use narutils::time_of_day::TimeOfDay;

fn entry(start: &str, billable_seconds: i32) -> WorklogResponse {
    WorklogResponse {
        billable_seconds,
        _start_date: "2024-05-06".to_string(),
        start_time: start.to_string(),
        _tempo_worklog_id: 1,
    }
}

#[test]
fn next_start_after_an_hour() {
    let end = next_start_time(TimeOfDay::from_hms(9, 0, 0), 3600);
    assert_eq!(end, TimeOfDay::from_hms(10, 0, 0));
    assert_eq!(end.format_hms(), "10:00:00");
}

#[test]
fn next_start_wraps_past_midnight() {
    let end = next_start_time(TimeOfDay::from_hms(23, 30, 0), 3600);
    assert_eq!(end, TimeOfDay::from_hms(0, 30, 0));
    assert_eq!(end.format_hms(), "00:30:00");
}

#[test]
fn negative_duration_wraps_backwards() {
    let (start, end) = worklog_window(TimeOfDay::from_hms(0, 10, 0), -1200);
    assert_eq!(start.format_hms(), "00:10:00");
    assert_eq!(end.format_hms(), "23:50:00");
}

#[test]
fn parses_start_and_end_of_entry() {
    let (start, end) = entry("10:00:00", 1800).parse_start_end().unwrap();
    assert_eq!(start.format_hms(), "10:00:00");
    assert_eq!(end.format_hms(), "10:30:00");
}

#[test]
fn rejects_malformed_start_time() {
    assert!(matches!(entry("25:00:00", 60).parse_start_end(), Err(AppError::InvalidStartTime)));
    assert!(matches!(entry("ten", 60).parse_start_end(), Err(AppError::InvalidStartTime)));
}

#[test]
fn billable_seconds_of_empty_day() {
    let day = UserWorklogsResponse { results: vec![] };
    assert_eq!(day.get_billable_seconds(), 0);
    assert_eq!(day.get_billable_seconds() as f64 / 3600.0, 0.0);
}

#[test]
fn billable_seconds_summed() {
    let day = UserWorklogsResponse { results: vec![entry("09:00:00", 3600), entry("10:00:00", 1800)] };
    assert_eq!(day.get_billable_seconds(), 5400);
    assert_eq!(day.get_billable_seconds() as f64 / 3600.0, 1.5);
}

#[test]
fn first_and_last_entries_of_day() {
    let day = UserWorklogsResponse { results: vec![entry("08:15:00", 900), entry("09:00:00", 1800)] };
    assert_eq!(day.started_work_at(), Some("08:15:00".to_string()));
    let (start, end) = day.last_window().unwrap().unwrap();
    assert_eq!((start.format_hms(), end.format_hms()), ("09:00:00".to_string(), "09:30:00".to_string()));
    let empty = UserWorklogsResponse { results: vec![] };
    assert_eq!(empty.started_work_at(), None);
    assert!(empty.last_window().is_none());
}

#[test]
fn tracking_needs_a_prior_entry() {
    let empty = UserWorklogsResponse { results: vec![] };
    assert!(matches!(empty.tracking_start(), Err(AppError::NoPriorEntryToday)));
}

#[test]
fn tracked_seconds_bounds() {
    assert_eq!(tracked_seconds(30), Ok(1800));
    assert_eq!(tracked_seconds(0), Err(AppError::InvalidDuration));
    assert_eq!(tracked_seconds(-15), Err(AppError::InvalidDuration));
    assert_eq!(tracked_seconds(35791394), Ok(2147483640));
    assert_eq!(tracked_seconds(35791395), Err(AppError::InvalidDuration));
}

#[test]
fn time_fields() {
    let t = TimeOfDay::from_hms(13, 5, 9);
    assert_eq!((t.hour(), t.minute(), t.second()), (13, 5, 9));
    assert_eq!(t.seconds, 47109);
    assert_eq!(t.add_seconds_wrapping(i32::MAX).seconds, (47109 + 2147483647i64).rem_euclid(86400) as u32);
}
