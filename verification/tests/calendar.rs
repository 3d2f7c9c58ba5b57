use argvus_calendar::calendar::date::{
    checked_add_days, checked_sub_days, first_of_month, midnight_utc, month_grid, next_month,
    local_time_fits, timestamp_fits, previous_month, shift_year_clamped, start_of_local_day_utc, Date, WeekStart,
};
use argvus_calendar::calendar::event::{
    remote_calendar_count, Calendar, CalendarEvent, CalendarSource,
};
use argvus_calendar::error::ArgvusError;
use chrono::TimeZone;

fn date(year: i32, month: u32, day: u32) -> Date {
    Date { year, month, day }
}

#[test]
fn shift_year_preserves_valid_date() {
    assert_eq!(shift_year_clamped(date(2026, 8, 11), -1), date(2025, 8, 11));
}

#[test]
fn shift_year_clamps_leap_day() {
    assert_eq!(shift_year_clamped(date(2024, 2, 29), 1), date(2025, 2, 28));
}

#[test]
fn local_day_start_round_trips_to_midnight() {
    let d = date(2026, 8, 12);
    let t = start_of_local_day_utc(d).expect("local midnight");
    let local = chrono::Local.timestamp_opt(t, 0).unwrap();
    assert_eq!(
        local.date_naive(),
        chrono::NaiveDate::from_ymd_opt(2026, 8, 12).unwrap()
    );
    assert_eq!(local.time(), chrono::NaiveTime::MIN);
}

#[test]
fn month_navigation_wraps_years() {
    assert_eq!(next_month(date(2026, 12, 15)), date(2027, 1, 1));
    assert_eq!(previous_month(date(2026, 1, 15)), date(2025, 12, 1));
    assert_eq!(previous_month(next_month(date(2026, 8, 1))), date(2026, 8, 1));
    assert_eq!(first_of_month(date(2026, 8, 31)), date(2026, 8, 1));
}

#[test]
fn day_arithmetic() {
    assert_eq!(checked_add_days(date(2024, 2, 28), 1), Some(date(2024, 2, 29)));
    assert_eq!(checked_sub_days(date(2026, 1, 1), 1), Some(date(2025, 12, 31)));
    assert_eq!(checked_add_days(date(262142, 12, 31), 1), None);
}

#[test]
fn month_grid_starts_on_the_week_start() {
    // August 2026 starts on a Saturday.
    let monday = month_grid(date(2026, 8, 11), WeekStart::Monday);
    assert_eq!(monday.len(), 42);
    assert_eq!(monday[0], date(2026, 7, 27));
    assert_eq!(monday[5], date(2026, 8, 1));
    let sunday = month_grid(date(2026, 8, 11), WeekStart::Sunday);
    assert_eq!(sunday[0], date(2026, 7, 26));
    assert_eq!(sunday[41], date(2026, 9, 5));
}

#[test]
fn midnight_utc_is_the_unix_time_of_the_day() {
    assert_eq!(midnight_utc(date(1970, 1, 1)), 0);
    assert_eq!(midnight_utc(date(2026, 8, 12)), 1786492800);
    assert_eq!(midnight_utc(date(1969, 12, 31)), -86400);
}

#[test]
fn events_are_validated() {
    let mut event = CalendarEvent::new_local(1, "Standup".to_string(), 1786492800);
    assert_eq!(event.end, event.start + 3600);
    assert_eq!(event.reminders.len(), 1);
    assert_eq!(event.reminders[0].minutes_before, 10);
    assert!(event.uid.ends_with("@argvus-calendar"));
    assert!(event.validate().is_ok());
    event.title = "   ".to_string();
    match event.validate() {
        Err(ArgvusError::Configuration(m)) => assert_eq!(m, "event title cannot be empty"),
        other => panic!("unexpected {other:?}"),
    }
    event.title = "Standup".to_string();
    event.end = event.start - 1;
    match event.validate() {
        Err(ArgvusError::Configuration(m)) => {
            assert_eq!(m, "event end must be equal to or after start")
        }
        other => panic!("unexpected {other:?}"),
    }
}

#[test]
fn sources_are_stored_by_name() {
    for source in [CalendarSource::Local, CalendarSource::CalDav, CalendarSource::ImportedIcs] {
        assert_eq!(CalendarSource::from(source.as_str()), source);
    }
    assert_eq!(CalendarSource::from("something else"), CalendarSource::Local);
}

#[test]
fn remote_calendars_are_counted() {
    let calendar = |enabled: bool, remote: Option<&str>| Calendar {
        id: 1,
        name: "c".to_string(),
        source: CalendarSource::CalDav,
        remote_url: remote.map(str::to_string),
        color: None,
        enabled,
    };
    let calendars = vec![
        calendar(true, Some("https://dav/a")),
        calendar(false, Some("https://dav/b")),
        calendar(true, None),
        calendar(true, Some("https://dav/c")),
    ];
    assert_eq!(remote_calendar_count(&calendars), 2);
}

#[test]
fn local_times_are_read_only_a_day_inside_the_range() {
    let first = midnight_utc(date(-262143, 1, 1));
    let last = midnight_utc(date(262142, 12, 31));
    assert!(!local_time_fits(first));
    assert!(!local_time_fits(first + 86399));
    assert!(local_time_fits(first + 86400));
    assert!(local_time_fits(last - 1));
    assert!(!local_time_fits(last));
    assert!(local_time_fits(midnight_utc(date(2026, 8, 12))));
}

#[test]
fn supported_instants_are_checked() {
    let first = midnight_utc(date(-262143, 1, 1));
    let last = midnight_utc(date(262142, 12, 31)) + 86399;
    assert!(timestamp_fits(first));
    assert!(!timestamp_fits(first - 1));
    assert!(timestamp_fits(last));
    assert!(!timestamp_fits(last + 1));
    assert!(!timestamp_fits(i64::MAX));
}
