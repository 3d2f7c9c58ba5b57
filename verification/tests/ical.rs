use argvus_calendar::calendar::date::{midnight_utc, Date};
use argvus_calendar::calendar::event::{CalendarEvent, CalendarSource, Reminder};
use argvus_calendar::error::ArgvusError;
use argvus_calendar::ical::{
    events_from_ics, export_ics, is_exportable, parse_ics, parse_ics_datetime, split_raw_property,
    trigger_to_minutes, IcsEvent,
};

fn ics_message(r: Result<i64, ArgvusError>) -> String {
    match r {
        Err(ArgvusError::Ics(m)) => m,
        other => panic!("unexpected {other:?}"),
    }
}

#[test]
fn triggers_in_minutes_before_become_reminders() {
    assert_eq!(trigger_to_minutes("-PT15M"), Some(15));
    assert_eq!(trigger_to_minutes("  -PT0M \n"), Some(0));
    assert_eq!(trigger_to_minutes("-PT1H"), Some(60));
    assert_eq!(trigger_to_minutes("-PT1H30M"), Some(90));
    assert_eq!(trigger_to_minutes("-P1D"), Some(1440));
    assert_eq!(trigger_to_minutes("-P1DT2H"), Some(1560));
    assert_eq!(trigger_to_minutes("-P1W"), Some(10080));
    assert_eq!(trigger_to_minutes("-PT1200S"), Some(20));
    assert_eq!(trigger_to_minutes("-PT90S"), Some(1));
    assert_eq!(trigger_to_minutes("-PT-PT5MM"), None);
    assert_eq!(trigger_to_minutes("PT15M"), None);
    assert_eq!(trigger_to_minutes("-PT"), None);
    assert_eq!(trigger_to_minutes("-P"), None);
    assert_eq!(trigger_to_minutes("-PT15"), None);
    assert_eq!(trigger_to_minutes("-PT5M1H"), None);
    assert_eq!(trigger_to_minutes("-P1H"), None);
    assert_eq!(trigger_to_minutes("-PTxM"), None);
    assert_eq!(trigger_to_minutes("-PT9223372036854775808M"), None);
}

#[test]
fn datetimes_of_every_supported_form() {
    let day = midnight_utc(Date { year: 2026, month: 8, day: 12 });
    assert_eq!(parse_ics_datetime("20260812").unwrap(), day);
    assert_eq!(parse_ics_datetime("20260812T093000Z").unwrap(), day + 9 * 3600 + 1800);
    assert_eq!(parse_ics_datetime("20260812T093000").unwrap(), day + 9 * 3600 + 1800);
    assert_eq!(parse_ics_datetime("2026-08-12T09:30:00+02:00").unwrap(), day + 7 * 3600 + 1800);
    assert!(ics_message(parse_ics_datetime("20261312")).starts_with("invalid date 20261312: "));
    assert_eq!(ics_message(parse_ics_datetime("soon")), "unsupported datetime: soon");
}

#[test]
fn raw_properties_split_at_the_first_colon() {
    assert_eq!(
        split_raw_property("EXDATE:20260812T090000Z"),
        Some(("EXDATE".to_string(), "20260812T090000Z".to_string()))
    );
    assert_eq!(
        split_raw_property("RDATE:a:b"),
        Some(("RDATE".to_string(), "a:b".to_string()))
    );
    assert_eq!(split_raw_property("nothing"), None);
}

const SAMPLE: &str = "BEGIN:VCALENDAR\r\nVERSION:2.0\r\nPRODID:test\r\nBEGIN:VEVENT\r\nUID:one@example\r\nSUMMARY:Planning\r\nLOCATION:Room 4\r\nDTSTART:20260812T090000Z\r\nDTEND:20260812T100000Z\r\nRRULE:FREQ=WEEKLY\r\nBEGIN:VALARM\r\nACTION:DISPLAY\r\nTRIGGER:-PT15M\r\nEND:VALARM\r\nEND:VEVENT\r\nBEGIN:VEVENT\r\nDTSTART;VALUE=DATE:20260813\r\nEND:VEVENT\r\nBEGIN:VEVENT\r\nSUMMARY:No start\r\nEND:VEVENT\r\nEND:VCALENDAR\r\n";

#[test]
fn imports_events_with_their_alarms() {
    let events = parse_ics(SAMPLE, 3).expect("import");
    assert_eq!(events.len(), 2);
    let day = midnight_utc(Date { year: 2026, month: 8, day: 12 });
    let first = &events[0];
    assert_eq!(first.uid, "one@example");
    assert_eq!(first.title, "Planning");
    assert_eq!(first.location.as_deref(), Some("Room 4"));
    assert_eq!(first.start, day + 9 * 3600);
    assert_eq!(first.end, day + 10 * 3600);
    assert!(!first.all_day);
    assert_eq!(first.recurrence.rrule.as_deref(), Some("FREQ=WEEKLY"));
    assert_eq!(first.reminders.len(), 1);
    assert_eq!(first.reminders[0].minutes_before, 15);
    assert_eq!(first.calendar_id, 3);
    assert!(matches!(first.source, CalendarSource::ImportedIcs));
    assert!(!first.dirty);
    let second = &events[1];
    assert_eq!(second.title, "Untitled event");
    assert!(second.all_day);
    assert_eq!(second.start, day + 86400);
    assert_eq!(second.end, day + 86400 + 3600);
    assert!(second.uid.ends_with("@import.argvus-calendar"));
}

#[test]
fn unreadable_calendars_are_refused() {
    match parse_ics("this is not a calendar", 1) {
        Err(ArgvusError::Ics(m)) => assert!(m.starts_with("failed to parse ICS: ")),
        other => panic!("unexpected {other:?}"),
    }
}

fn item(start: Option<&str>, end: Option<&str>) -> IcsEvent {
    IcsEvent {
        start: start.map(str::to_string),
        start_value_type: None,
        start_tzid: Some("Europe/Lisbon".to_string()),
        end: end.map(str::to_string),
        uid: None,
        summary: Some("Item".to_string()),
        description: Some("notes".to_string()),
        location: None,
        rrule: None,
        multi_properties: vec![
            (
                "EXDATE".to_string(),
                vec![("EXDATE".to_string(), "20260819T090000Z".to_string())],
            ),
            (
                "CATEGORIES".to_string(),
                vec![("CATEGORIES".to_string(), "work".to_string())],
            ),
            (
                "RDATE".to_string(),
                vec![
                    ("RDATE".to_string(), "20260820T090000Z".to_string()),
                    ("RDATE".to_string(), "20260821T090000Z".to_string()),
                ],
            ),
        ],
        components: vec![
            ("VALARM".to_string(), Some("-PT30M".to_string())),
            ("VALARM".to_string(), Some("PT5M".to_string())),
            ("VTODO".to_string(), Some("-PT10M".to_string())),
            ("VALARM".to_string(), None),
        ],
    }
}

#[test]
fn imported_values_are_copied_in_order() {
    let items = vec![item(Some("20260812T090000Z"), None), item(None, None)];
    let uids = vec!["a@x".to_string(), "b@x".to_string()];
    let events = events_from_ics(&items, 9, 1000, &uids).unwrap();
    assert_eq!(events.len(), 1);
    let e = &events[0];
    assert_eq!(e.uid, "a@x");
    assert_eq!(e.end, e.start + 3600);
    assert_eq!(e.timezone.as_deref(), Some("Europe/Lisbon"));
    assert_eq!(e.description.as_deref(), Some("notes"));
    assert_eq!(
        e.recurrence.raw_properties,
        vec![
            "EXDATE:20260819T090000Z",
            "RDATE:20260820T090000Z",
            "RDATE:20260821T090000Z"
        ]
    );
    let minutes: Vec<i64> = e.reminders.iter().map(|r| r.minutes_before).collect();
    assert_eq!(minutes, vec![30]);
    assert_eq!((e.created_at, e.updated_at), (1000, 1000));
}

#[test]
fn the_first_unreadable_time_fails_the_import() {
    let items = vec![
        item(Some("20260812T090000Z"), Some("later")),
        item(Some("never"), None),
    ];
    let uids = vec![String::new(), String::new()];
    match events_from_ics(&items, 1, 0, &uids) {
        Err(ArgvusError::Ics(m)) => assert_eq!(m, "unsupported datetime: later"),
        other => panic!("unexpected {other:?}"),
    }
}

#[test]
fn exported_calendars_read_back() {
    let start = midnight_utc(Date { year: 2026, month: 8, day: 12 }) + 9 * 3600;
    let mut event = CalendarEvent::new_local(1, "Review".to_string(), start);
    event.location = Some("Room 2".to_string());
    event.recurrence.raw_properties = vec!["EXDATE:20260819T090000Z".to_string()];
    event.reminders = vec![Reminder { id: None, event_id: None, minutes_before: 20, fired_at: None }];
    let text = export_ics(&vec![event.clone()]);
    assert!(text.contains("Argvus Calendar"));
    assert!(text.contains("SUMMARY:Review"));
    assert!(text.contains("EXDATE:20260819T090000Z"));
    let back = parse_ics(&text, 1).unwrap();
    assert_eq!(back.len(), 1);
    assert_eq!(back[0].uid, event.uid);
    assert_eq!(back[0].start, start);
    assert_eq!(back[0].end, start + 3600);
    assert_eq!(back[0].location.as_deref(), Some("Room 2"));
    // Alarms are written in seconds, which an import reads back in minutes.
    assert!(text.contains("TRIGGER:-PT1200S"));
    assert_eq!(back[0].reminders.len(), 1);
    assert_eq!(back[0].reminders[0].minutes_before, 20);
}

#[test]
fn exported_calendars_hold_one_event_block_per_event() {
    let start = midnight_utc(Date { year: 2026, month: 8, day: 12 }) + 9 * 3600;
    let first = CalendarEvent::new_local(1, "Review".to_string(), start);
    let second = CalendarEvent::new_local(1, "Retro".to_string(), start + 7200);
    let text = export_ics(&vec![first, second]);
    assert!(text.starts_with("BEGIN:VCALENDAR\r\n"));
    assert!(text.ends_with("END:VEVENT\r\nEND:VCALENDAR\r\n"));
    assert_eq!(text.matches("BEGIN:VEVENT\r\n").count(), 2);
    assert_eq!(text.matches("END:VEVENT\r\n").count(), 2);
    let review = text.find("SUMMARY:Review").unwrap();
    let retro = text.find("SUMMARY:Retro").unwrap();
    assert!(review < retro);
    assert!(export_ics(&vec![]).starts_with("BEGIN:VCALENDAR\r\n"));
    assert!(!export_ics(&vec![]).contains("BEGIN:VEVENT"));
}

#[test]
fn only_supported_events_are_exportable() {
    let start = midnight_utc(Date { year: 2026, month: 8, day: 12 });
    let mut event = CalendarEvent::new_local(1, "Review".to_string(), start);
    assert!(is_exportable(&event));
    event.reminders = vec![Reminder { id: None, event_id: None, minutes_before: i64::MIN, fired_at: None }];
    assert!(!is_exportable(&event));
    event.reminders.clear();
    event.end = i64::MAX;
    assert!(!is_exportable(&event));
}
