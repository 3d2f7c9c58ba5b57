use argvus_calendar::calendar::date::{midnight_utc, Date};
use argvus_calendar::calendar::event::CalendarEvent;
use argvus_calendar::storage::{
    day_window, in_window, is_purged, month_window, parse_stored_datetime, stored_datetime,
};

#[test]
fn stored_instants_read_back() {
    let t = midnight_utc(Date { year: 2026, month: 8, day: 12 }) + 3723;
    let text = stored_datetime(t);
    assert_eq!(text, "2026-08-12T01:02:03+00:00");
    assert_eq!(parse_stored_datetime(&text), Some(t));
    assert_eq!(parse_stored_datetime("2026-08-12T03:02:03+02:00"), Some(t));
    assert_eq!(parse_stored_datetime("yesterday"), None);
}

#[test]
fn day_windows_cover_the_utc_day() {
    let (start, end) = day_window(Date { year: 2026, month: 8, day: 12 });
    assert_eq!(start, 1786492800);
    assert_eq!(end, 1786492800 + 86399);
}

#[test]
fn events_in_a_window_overlap_it() {
    let (start, end) = day_window(Date { year: 2026, month: 8, day: 12 });
    let mut event = CalendarEvent::new_local(1, "Late".to_string(), end);
    assert!(in_window(&event, start, end));
    event.start = end + 1;
    event.end = end + 3601;
    assert!(!in_window(&event, start, end));
    event.start = start - 7200;
    event.end = start;
    assert!(in_window(&event, start, end));
    event.deleted = true;
    assert!(!in_window(&event, start, end));
    assert!(is_purged(&event, start));
    assert!(!is_purged(&event, start - 1));
}

#[test]
fn purge_removes_ended_events_and_their_reminders() {
    let cutoff = midnight_utc(Date { year: 2026, month: 8, day: 12 });
    let ended = CalendarEvent::new_local(1, "Ended".to_string(), cutoff - 7200);
    let running = CalendarEvent::new_local(1, "Running".to_string(), cutoff - 1800);
    assert!(is_purged(&ended, cutoff));
    assert!(!is_purged(&running, cutoff));
}

#[test]
fn month_windows_cover_the_whole_month() {
    let (start, end) = month_window(Date { year: 2026, month: 2, day: 17 });
    assert_eq!(start, midnight_utc(Date { year: 2026, month: 2, day: 1 }));
    assert_eq!(end, midnight_utc(Date { year: 2026, month: 3, day: 1 }) - 1);
}

#[test]
fn five_digit_years_are_written_but_not_read_back() {
    let t = midnight_utc(Date { year: 12026, month: 1, day: 1 });
    let text = stored_datetime(t);
    assert!(text.starts_with("+12026-01-01"));
    assert_eq!(parse_stored_datetime(&text), None);
    let last = midnight_utc(Date { year: 9999, month: 12, day: 31 }) + 86399;
    assert_eq!(parse_stored_datetime(&stored_datetime(last)), Some(last));
}
