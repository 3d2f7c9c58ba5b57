use argvus_calendar::calendar::date::{midnight_utc, Date};
use argvus_calendar::calendar::event::{CalendarEvent, Reminder};
use argvus_calendar::config::paths::paths_from_homes;
use argvus_calendar::reminders::{
    is_plannable,
    is_stale_repeat, needs_start_reminder, notification_body, plan_reminders, reminder_body,
    reminder_is_due, run_service, ReminderScheduler,
};
use argvus_calendar::ui::editor::LocalTime;
use chrono::TimeZone;

fn start() -> i64 {
    midnight_utc(Date { year: 2026, month: 8, day: 12 })
}

fn reminder(id: Option<i64>, minutes_before: i64) -> Reminder {
    Reminder { id, event_id: Some(1), minutes_before, fired_at: None }
}

#[test]
fn old_repetitions_are_skipped_without_skipping_primary_reminders() {
    let start = start();
    let noon = start + 12 * 3600;
    assert!(is_stale_repeat(start, -120, noon));
    assert!(!is_stale_repeat(start, -720, noon));
    assert!(!is_stale_repeat(start, 10, noon));
}

#[test]
fn repetitions_fire_within_two_minutes() {
    let start = start();
    assert!(!is_stale_repeat(start, -60, start + 3600 + 120));
    assert!(is_stale_repeat(start, -60, start + 3600 + 121));
}

#[test]
fn due_reminders_follow_the_grace_period() {
    let start = start();
    let mut event = CalendarEvent::new_local(1, "Call".to_string(), start);
    let r = reminder(Some(1), 10);
    // Ten minutes before the start it is due; eleven minutes before it is not.
    assert!(reminder_is_due(&r, &event, start - 600));
    assert!(!reminder_is_due(&r, &event, start - 660));
    // During the event it stays due.
    assert!(reminder_is_due(&r, &event, start + 1800));
    // After the event it is due for five minutes after its time only.
    event.end = start - 1000;
    assert!(reminder_is_due(&r, &event, start - 600 + 300));
    assert!(!reminder_is_due(&r, &event, start - 600 + 301));
    // Fired reminders and deleted events are never due.
    let fired = Reminder { fired_at: Some(start), ..r.clone() };
    assert!(!reminder_is_due(&fired, &event, start));
    event.deleted = true;
    assert!(!reminder_is_due(&r, &event, start));
}

#[test]
fn events_without_reminders_get_one_at_their_start() {
    let start = start();
    let mut event = CalendarEvent::new_local(1, "Call".to_string(), start);
    assert!(!needs_start_reminder(&event, start));
    event.reminders.clear();
    assert!(needs_start_reminder(&event, start));
    assert!(needs_start_reminder(&event, start + 300));
    assert!(!needs_start_reminder(&event, start + 301));
    assert!(!needs_start_reminder(&event, start - 1));
}

#[test]
fn a_pass_marks_every_due_reminder_and_shows_the_fresh_ones() {
    let start = start();
    let event = CalendarEvent::new_local(1, "Call".to_string(), start);
    let due = vec![
        (reminder(Some(4), 10), event.clone()),
        (reminder(None, 5), event.clone()),
        (reminder(Some(6), -120), event.clone()),
        (reminder(Some(7), -720), event.clone()),
    ];
    let plan = plan_reminders(&due, start + 12 * 3600);
    let summary: Vec<(usize, i64, bool)> =
        plan.iter().map(|a| (a.index, a.reminder_id, a.notify)).collect();
    assert_eq!(summary, vec![(0, 4, true), (2, 6, false), (3, 7, true)]);
}

#[test]
fn notification_bodies() {
    let at = LocalTime { date: Date { year: 2026, month: 8, day: 12 }, hour: 9, minute: 5 };
    assert_eq!(notification_body(true, -60, at), "All-day event reminder");
    assert_eq!(notification_body(false, -60, at), "Event in progress\nStarted at 09:05");
    assert_eq!(notification_body(false, 0, at), "Starts now\n09:05");
    assert_eq!(notification_body(false, 15, at), "Starts in 15 minutes\n09:05");
    assert_eq!(notification_body(true, 15, at), "Starts in 15 minutes\n09:05");
}

#[test]
fn reminder_bodies_show_the_local_start() {
    let event = CalendarEvent::new_local(1, "Call".to_string(), start());
    let expected = chrono::Local.timestamp_opt(start(), 0).unwrap().format("%H:%M").to_string();
    assert_eq!(reminder_body(&event, 0), format!("Starts now\n{expected}"));
}

fn due_titles(events: &[CalendarEvent], now: i64) -> Vec<String> {
    let mut sorted: Vec<&CalendarEvent> = events.iter().collect();
    sorted.sort_by_key(|e| e.start);
    let mut titles = Vec::new();
    for event in sorted {
        for r in &event.reminders {
            if reminder_is_due(r, event, now) {
                titles.push(event.title.clone());
            }
        }
    }
    titles
}

fn at_18h(seconds: i64) -> i64 {
    midnight_utc(Date { year: 2026, month: 8, day: 12 }) + 18 * 3600 + seconds
}

#[test]
fn due_reminders_include_current_events_and_skip_future_or_expired_events() {
    let now = at_18h(0);
    let due = CalendarEvent::new_local(1, "Due".to_string(), now + 5 * 60);
    let future = CalendarEvent::new_local(1, "Future".to_string(), now + 30 * 60);
    let expired = CalendarEvent::new_local(1, "Expired".to_string(), now - 2 * 3600);
    let mut repeated = CalendarEvent::new_local(1, "Repeated".to_string(), now - 3600);
    repeated.end = now + 3600;
    repeated.reminders = vec![reminder(None, -60)];
    let titles = due_titles(&[due, future, expired, repeated], now);
    assert_eq!(titles, vec!["Repeated", "Due"]);
}

#[test]
fn due_reminders_include_recently_missed_zero_length_events() {
    let now = at_18h(30);
    let mut recent = CalendarEvent::new_local(1, "Recent".to_string(), now - 30);
    recent.end = recent.start;
    recent.reminders = vec![reminder(None, 0)];
    let mut old = CalendarEvent::new_local(1, "Old".to_string(), now - 6 * 60);
    old.end = old.start;
    old.reminders = vec![reminder(None, 0)];
    assert_eq!(due_titles(&[recent, old], now), vec!["Recent"]);
}

#[test]
fn unscheduled_due_events_get_a_start_reminder() {
    let now = at_18h(30);
    let mut event = CalendarEvent::new_local(1, "Unscheduled".to_string(), now - 30);
    event.reminders.clear();
    assert!(needs_start_reminder(&event, now));
    event.reminders = vec![reminder(Some(1), 0)];
    assert_eq!(due_titles(&[event], now), vec!["Unscheduled"]);
}

#[test]
fn the_service_runs_unless_switched_off() {
    let paths = paths_from_homes("/d", "/s", "/c", "/g");
    let scheduler = ReminderScheduler::new(&paths);
    assert_eq!(scheduler.database_path, paths.database);
    assert_eq!(scheduler.poll_interval_seconds, 30);
    assert!(run_service(paths.clone(), None).is_none());
    assert!(run_service(paths.clone(), Some("on")).is_some());
    assert!(run_service(paths.clone(), Some("garbled")).is_none());
    assert!(run_service(paths, Some("off\n")).is_none());
}

#[test]
fn due_reminders_are_plannable_only_within_the_supported_dates() {
    let start = midnight_utc(Date { year: 2026, month: 8, day: 12 });
    let event = CalendarEvent::new_local(1, "Review".to_string(), start);
    let ok = Reminder { id: Some(1), event_id: Some(1), minutes_before: 10, fired_at: None };
    let far = Reminder { id: Some(2), event_id: Some(1), minutes_before: i64::MAX, fired_at: None };
    assert!(is_plannable(&vec![(ok, event.clone())]));
    assert!(!is_plannable(&vec![(ok, event.clone()), (far, event)]));
}
