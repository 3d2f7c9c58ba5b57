use argvus_calendar::calendar::date::{checked_add_days, checked_sub_days, today, Date, WeekStart};
use argvus_calendar::calendar::event::{CalendarEvent, Reminder};
use argvus_calendar::config::settings::AppConfig;
use argvus_calendar::i18n::{I18n, Language};
use argvus_calendar::ui::agenda::{agenda_empty_text, agenda_time};
use argvus_calendar::ui::calendar::{day_cells, weekday_labels};
use argvus_calendar::ui::editor::{
    build_reminders, build_saved_event, check_not_past, local_datetime, saved_span_of,
    saving_fits_for, EditorDraft, EditorKind, LocalTime,
};
use argvus_calendar::config::paths::paths_from_homes;
use argvus_calendar::ipc::{IpcCommand, IpcMessage};
use argvus_calendar::ui::popup::{
    monitor_from_json, pointer_from_json,
    can_create_event, monitor_at, place_popup, pointer_is_outside, popup_origin, popup_placement,
    PopupPresence,
};
use argvus_calendar::ui::style::{css_string, runtime_css, stylesheet_paths};
use argvus_calendar::ui::settings::SettingsDraft;
use argvus_calendar::ui::view::{
    adopt_settings, can_handle, cancel_editor, key_message, message_of_command, open_edit_event,
    open_settings, settings_theme, update, update_draft, update_settings_draft, AppMsg, AppState,
    Effect, EditorChange, PopupKey, SettingsChange, ViewState,
};
use chrono::{Datelike, TimeZone, Timelike};

fn date(year: i32, month: u32, day: u32) -> Date {
    Date { year, month, day }
}

#[test]
fn view_transitions_calendar_new_cancel_calendar() {
    let d = date(2026, 8, 11);
    let view = ViewState::Editor(Box::new(EditorDraft::new(d, 10)));
    assert!(matches!(view, ViewState::Editor(_)));
    let view = ViewState::Calendar;
    assert!(matches!(view, ViewState::Calendar));
}

#[test]
fn draft_updates_are_applied() {
    let d = date(2026, 8, 11);
    let mut view = ViewState::Editor(Box::new(EditorDraft::new(d, 10)));
    update_draft(&mut view, EditorChange::Title("Meeting".to_string()));
    let ViewState::Editor(draft) = view else {
        panic!("expected editor");
    };
    assert_eq!(draft.title, "Meeting");
}

#[test]
fn cancel_editor_restores_calendar_view() {
    let d = date(2026, 8, 12);
    let mut view = ViewState::Editor(Box::new(EditorDraft::new(d, 10)));
    cancel_editor(&mut view);
    assert!(matches!(view, ViewState::Calendar));
}

#[test]
fn event_creation_is_blocked_before_today() {
    let now = today();
    assert!(!can_create_event(checked_sub_days(now, 1).unwrap(), now));
    assert!(can_create_event(now, now));
    assert!(can_create_event(checked_add_days(now, 1).unwrap(), now));
}

#[test]
fn popup_opens_below_the_fixed_click_position() {
    assert_eq!(popup_origin(900, 30, 0, 0, 1920, 1080), (900, 42));
    assert_eq!(popup_origin(2000, 1200, 0, 0, 1920, 1080), (1518, 556));
}

#[test]
fn popup_placement_keeps_the_popup_on_the_monitor() {
    let p = popup_placement((900, 30), (0, 0, 1920, 1080, 36));
    assert_eq!(p.margin_top, 6);
    assert_eq!(p.margin_right, 1920 - 900 - 398);
    assert_eq!(p.bounds, (900, 42, 398, 520));
    assert!(pointer_is_outside(Some((900, 42, 398, 520)), Some((10, 10))));
    assert!(!pointer_is_outside(Some((900, 42, 398, 520)), Some((901, 43))));
    assert!(pointer_is_outside(None, Some((10, 10))));
    assert!(pointer_is_outside(Some((900, 42, 398, 520)), None));
}

#[test]
fn local_datetime_accepts_valid_time() {
    let d = date(2026, 8, 12);
    let t = local_datetime(d, 23, 59).unwrap();
    let local = chrono::Local.timestamp_opt(t, 0).unwrap();
    assert_eq!((local.hour(), local.minute()), (23, 59));
}

#[test]
fn local_datetime_rejects_out_of_range_time() {
    let d = date(2026, 8, 12);
    assert!(local_datetime(d, 24, 0).is_none());
    assert!(local_datetime(d, 23, 60).is_none());
}

fn minutes(rs: &[Reminder]) -> Vec<i64> {
    rs.iter().map(|r| r.minutes_before).collect()
}

#[test]
fn all_day_repeat_builds_reminders_during_the_day() {
    let d = date(2026, 8, 12);
    let mut draft = EditorDraft::new(d, 90);
    draft.all_day = true;
    draft.repeat_all_day = true;
    draft.repeat_hours = 6;
    let start = local_datetime(d, 0, 0).unwrap();
    let end = local_datetime(checked_add_days(d, 1).unwrap(), 0, 0).unwrap();
    let now = start - 12 * 3600;
    let values = minutes(&build_reminders(&draft, None, start, end, now));
    assert_eq!(values, vec![90, -360, -720, -1080]);
}

#[test]
fn disabled_reminder_produces_no_schedule() {
    let d = date(2026, 8, 12);
    let mut draft = EditorDraft::new(d, 10);
    draft.reminder_enabled = false;
    let start = local_datetime(d, 9, 0).unwrap();
    assert!(build_reminders(&draft, None, start, start + 3600, start - 3600).is_empty());
}

#[test]
fn short_notice_events_remind_at_start_instead_of_in_the_past() {
    let now = chrono::Utc::now().timestamp();
    let start = now + 60;
    let local = chrono::Local.timestamp_opt(start, 0).unwrap().date_naive();
    let mut draft = EditorDraft::new(date(local.year(), local.month(), local.day()), 10);
    draft.reminder_hours = 0;
    draft.reminder_minutes = 10;
    let reminders = build_reminders(&draft, None, start, start + 3600, now);
    assert_eq!(reminders.len(), 1);
    assert_eq!(reminders[0].minutes_before, 0);
}

#[test]
fn saving_a_draft_builds_the_stored_event() {
    let d = date(2026, 8, 12);
    let mut draft = EditorDraft::new(d, 15);
    draft.location = "Room 1".to_string();
    let now = local_datetime(d, 0, 0).unwrap() - 86400;
    let event = build_saved_event(draft, 60, 7, now).expect("saved");
    assert_eq!(event.title, "New event");
    assert_eq!(event.location.as_deref(), Some("Room 1"));
    assert_eq!(event.description, None);
    assert_eq!(event.calendar_id, 7);
    assert_eq!(event.start, local_datetime(d, 9, 0).unwrap());
    assert_eq!(event.end, local_datetime(d, 10, 0).unwrap());
    assert_eq!(minutes(&event.reminders), vec![15]);
}

#[test]
fn drafts_dated_before_today_are_refused() {
    let now = date(2026, 8, 12);
    let draft = EditorDraft::new(date(2026, 8, 11), 10);
    let err = check_not_past(&draft, now).unwrap_err();
    assert_eq!(
        format!("{err:?}"),
        "Configuration(\"cannot create or update an event in the past\")"
    );
    assert!(check_not_past(&EditorDraft::new(now, 10), now).is_ok());
}

#[test]
fn editing_an_event_shows_its_values() {
    let mut event = CalendarEvent::new_local(1, "Review".to_string(), 1786528800);
    event.reminders = vec![
        Reminder { id: None, event_id: None, minutes_before: -180, fired_at: None },
        Reminder { id: None, event_id: None, minutes_before: 25, fired_at: None },
    ];
    let draft = EditorDraft::from_event(event);
    assert!(matches!(draft.kind, EditorKind::Edit(_)));
    assert_eq!(draft.title, "Review");
    assert!(draft.reminder_enabled);
    assert_eq!((draft.reminder_hours, draft.reminder_minutes), (0, 25));
    assert!(draft.repeat_all_day);
    assert_eq!((draft.repeat_hours, draft.repeat_minutes), (3, 0));
}

#[test]
fn draft_round_trips_all_fields() {
    let mut config = AppConfig::default();
    config.appearance.font_family = "Noto Sans".to_string();
    config.appearance.font_size = 14;
    config.locale.language = "auto".to_string();
    config.calendar.week_start = "sunday".to_string();
    config.calendar.default_event_duration_minutes = 90;
    config.calendar.default_reminder_minutes = 30;
    config.calendar.sync_interval_minutes = 5;
    config.editor.command = "kitty".to_string();
    config.editor.args = vec!["-e".to_string(), "nvim".to_string()];
    config.terminal.command = "foot".to_string();
    config.terminal.args = vec!["-f".to_string()];

    let draft = SettingsDraft::from_config(&config, "argvus-dark-slate", true);
    let restored = draft.into_config();

    assert_eq!(restored.appearance.font_family, "Noto Sans");
    assert_eq!(restored.appearance.font_size, 14);
    assert_eq!(restored.locale.language, "auto");
    assert_eq!(restored.calendar.week_start, "sunday");
    assert!(restored.calendar.show_events);
    assert_eq!(restored.calendar.default_event_duration_minutes, 90);
    assert_eq!(restored.calendar.default_reminder_minutes, 30);
    assert_eq!(restored.calendar.sync_interval_minutes, 5);
    assert_eq!(restored.editor.command, "kitty");
    assert_eq!(restored.editor.args, vec!["-e", "nvim"]);
    assert_eq!(restored.terminal.command, "foot");
    assert_eq!(restored.terminal.args, vec!["-f"]);
}

#[test]
fn draft_keeps_explicit_language_override() {
    let mut config = AppConfig::default();
    config.locale.language = "pt-BR".to_string();
    let restored = SettingsDraft::from_config(&config, "", true).into_config();
    assert_eq!(restored.locale.language, "pt-BR");

    config.locale.language = "en-US".to_string();
    let restored = SettingsDraft::from_config(&config, "", true).into_config();
    assert_eq!(restored.locale.language, "en-US");
}

#[test]
fn draft_clamps_invalid_values() {
    let mut draft = SettingsDraft::from_config(&AppConfig::default(), "", true);
    draft.font_size = 300;
    draft.font_family = "".to_string();
    draft.language = "xx".to_string();
    draft.week_start = "friday".to_string();
    draft.editor_args = "  --flag  'quoted value'  ".to_string();
    draft.sync_interval_minutes = 0;
    draft.default_reminder_minutes = -3;

    let config = draft.into_config();
    assert_eq!(config.appearance.font_size, 32);
    assert_ne!(config.appearance.font_family, "");
    assert_eq!(config.locale.language, "auto");
    assert_eq!(config.calendar.week_start, "monday");
    assert_eq!(config.editor.args, vec!["--flag", "'quoted", "value'"]);
    assert_eq!(config.calendar.sync_interval_minutes, 1);
    assert_eq!(config.calendar.default_reminder_minutes, 0);
}

#[test]
fn day_cells_mark_the_days_of_the_month() {
    let cells = day_cells(date(2026, 8, 1), WeekStart::Monday);
    assert_eq!(cells.len(), 42);
    assert_eq!(cells[0], (date(2026, 7, 27), false));
    assert_eq!(cells[5], (date(2026, 8, 1), true));
    assert_eq!(cells[41], (date(2026, 9, 6), false));
    let headers = ["MO", "TU", "WE", "TH", "FR", "SA", "SU"];
    assert_eq!(weekday_labels(headers, WeekStart::Sunday)[0], "SU");
    assert_eq!(weekday_labels(headers, WeekStart::Monday), headers);
}

#[test]
fn agenda_rows_show_all_day_or_the_start_time() {
    let i18n = I18n::new(Language::EnUs);
    let mut event = CalendarEvent::new_local(1, "Trip".to_string(), 1786492800);
    event.all_day = true;
    assert_eq!(agenda_time(&event, i18n), "ALL DAY");
    event.all_day = false;
    let expected = chrono::Local.timestamp_opt(1786492800, 0).unwrap().format("%H:%M").to_string();
    assert_eq!(agenda_time(&event, i18n), expected);
    assert_eq!(agenda_empty_text(I18n::new(Language::PtBr)), "NENHUM EVENTO");
}

fn state(selected: Date) -> AppState {
    AppState::new(selected, true, 10, None)
}

#[test]
fn navigation_messages_move_the_shown_month() {
    let mut s = state(date(2026, 8, 11));
    let fx = update(&mut s, AppMsg::NextMonth, date(2026, 8, 11), true);
    assert_eq!(s.month, date(2026, 9, 1));
    assert_eq!(s.selected, date(2026, 8, 11));
    assert!(matches!(fx.as_slice(), [Effect::ReloadEvents]));
    update(&mut s, AppMsg::PreviousMonth, date(2026, 8, 11), true);
    assert_eq!(s.month, date(2026, 8, 1));
    update(&mut s, AppMsg::MoveDays(-11), date(2026, 8, 11), true);
    assert_eq!(s.selected, date(2026, 7, 31));
    assert_eq!(s.month, date(2026, 7, 1));
    update(&mut s, AppMsg::NextYear, date(2026, 8, 11), true);
    assert_eq!(s.selected, date(2027, 7, 31));
    update(&mut s, AppMsg::Today, date(2026, 8, 11), true);
    assert_eq!(s.selected, date(2026, 8, 11));
    assert_eq!(s.month, date(2026, 8, 1));
    update(&mut s, AppMsg::MoveDays(i64::MIN), date(2026, 8, 11), true);
    assert_eq!(s.selected, date(2026, 8, 11));
}

#[test]
fn new_events_open_only_from_today_on() {
    let mut s = state(date(2026, 8, 10));
    update(&mut s, AppMsg::OpenNewEvent, date(2026, 8, 11), true);
    assert!(matches!(s.view, ViewState::Calendar));
    update(&mut s, AppMsg::SelectDay(date(2026, 8, 12)), date(2026, 8, 11), true);
    update(&mut s, AppMsg::OpenNewEvent, date(2026, 8, 11), true);
    let ViewState::Editor(draft) = &s.view else {
        panic!("expected editor");
    };
    assert_eq!(draft.date, date(2026, 8, 12));
    assert!(matches!(draft.kind, EditorKind::New));
    update(&mut s, AppMsg::EditorTitle("Lunch".to_string()), date(2026, 8, 11), true);
    let fx = update(&mut s, AppMsg::SaveEditor, date(2026, 8, 11), true);
    assert!(matches!(s.view, ViewState::Calendar));
    match fx.as_slice() {
        [Effect::SaveEditor(d), Effect::ReloadEvents] => assert_eq!(d.title, "Lunch"),
        other => panic!("unexpected {other:?}"),
    }
}

#[test]
fn hiding_returns_to_the_calendar() {
    let mut s = state(date(2026, 8, 12));
    update(&mut s, AppMsg::OpenNewEvent, date(2026, 8, 11), true);
    let fx = update(&mut s, AppMsg::ClickOutside, date(2026, 8, 11), true);
    assert!(matches!(s.view, ViewState::Calendar));
    assert!(matches!(fx.as_slice(), [Effect::HidePopup]));
    let fx = update(&mut s, AppMsg::Toggle(Some((5, 6))), date(2026, 8, 11), false);
    assert_eq!(s.fixed_position, Some((5, 6)));
    assert!(matches!(fx.as_slice(), [Effect::LoadCss, Effect::PresentPopup]));
}

#[test]
fn settings_are_opened_edited_and_saved() {
    let mut s = state(date(2026, 8, 12));
    let fx = update(&mut s, AppMsg::OpenSettings, date(2026, 8, 12), true);
    assert!(matches!(fx.as_slice(), [Effect::LoadSettings]));
    let config = AppConfig::default();
    let theme = settings_theme(None, vec!["argvus-dark".to_string()]);
    assert_eq!(theme, "argvus-dark");
    let draft = SettingsDraft::from_config(&config, &theme, s.events_enabled);
    open_settings(&mut s, draft);
    update(&mut s, AppMsg::SettingsShowEvents(false), date(2026, 8, 12), true);
    let mut view = ViewState::Calendar;
    update_settings_draft(&mut view, SettingsChange::Theme("x".to_string()));
    assert!(matches!(view, ViewState::Calendar));
    let fx = update(&mut s, AppMsg::SaveSettings, date(2026, 8, 12), true);
    let saved = match fx.as_slice() {
        [Effect::SaveSettings(d)] => d.clone(),
        other => panic!("unexpected {other:?}"),
    };
    assert!(!saved.show_events);
    let switched = adopt_settings(&mut s, &saved.into_config(), true);
    assert!(switched);
    assert!(!s.events_enabled);
    let fx = update(&mut s, AppMsg::OpenEditEvent(3), date(2026, 8, 12), true);
    assert!(fx.is_empty());
    let event = CalendarEvent::new_local(1, "x".to_string(), 1786492800);
    open_edit_event(&mut s, EditorDraft::from_event(event));
    assert!(matches!(s.view, ViewState::Calendar));
}

#[test]
fn keys_and_commands_become_messages() {
    assert!(matches!(key_message(PopupKey::Escape, false, true), Some(AppMsg::Hide)));
    assert!(key_message(PopupKey::T, false, true).is_none());
    assert!(matches!(key_message(PopupKey::T, false, false), Some(AppMsg::Today)));
    assert!(matches!(key_message(PopupKey::Left, false, false), Some(AppMsg::MoveDays(-1))));
    assert!(matches!(key_message(PopupKey::PageUp, true, false), Some(AppMsg::PreviousYear)));
    assert!(matches!(key_message(PopupKey::PageDown, false, false), Some(AppMsg::NextMonth)));
    assert!(key_message(PopupKey::Other, false, false).is_none());
    let message = IpcMessage { command: IpcCommand::Toggle, position: Some((1, 2)) };
    assert!(matches!(message_of_command(message), AppMsg::Toggle(Some((1, 2)))));
    let message = IpcMessage { command: IpcCommand::ReloadConfig, position: None };
    assert!(matches!(message_of_command(message), AppMsg::ReloadConfig));
}

#[test]
fn navigation_is_refused_at_the_calendar_edges() {
    let s = AppState::new(date(262142, 12, 3), true, 10, None);
    assert!(!can_handle(&s, &AppMsg::NextMonth));
    assert!(!can_handle(&s, &AppMsg::NextYear));
    assert!(can_handle(&s, &AppMsg::PreviousMonth));
    assert!(!can_handle(&s, &AppMsg::SelectDay(date(2026, 2, 30))));
    assert!(can_handle(&s, &AppMsg::SelectDay(date(2024, 2, 29))));
}

#[test]
fn style_sheets_follow_the_settings() {
    assert_eq!(css_string("Fira \"Code\"\\\n"), "Fira Code");
    let css = runtime_css("Noto", 99);
    assert!(css.starts_with(".argvus-calendar, .event-editor { font-family: \"Noto\", monospace; font-size: 32px; }\n"));
    assert!(runtime_css("x", 3).contains("font-size: 8px;"));
    let paths = paths_from_homes("/d", "/s", "/c", "/g");
    let sheets = stylesheet_paths(&paths, Some("dark"));
    assert_eq!(sheets.len(), 4);
    assert_eq!(sheets[0], paths.user_style);
    assert_eq!(sheets[2], "/etc/argvus-calendar/themes/dark.css");
    assert_eq!(sheets[3], paths.cache_theme_file);
    assert_eq!(stylesheet_paths(&paths, None).len(), 3);
}

#[test]
fn popups_that_do_not_fit_are_refused() {
    assert!(place_popup((900, 30), (0, 0, 1920, 1080, 0)).is_some());
    assert!(place_popup((i32::MIN, 0), (i32::MAX, 0, 1920, 1080, 0)).is_none());
}

#[test]
fn stale_timers_do_not_arm_a_newer_presentation() {
    let mut presence = PopupPresence::new();
    let first = presence.present((0, 0, 398, 520));
    assert!(!presence.dismisses(false, true, Some((900, 900))));
    let second = presence.present((10, 10, 398, 520));
    assert_ne!(first, second);
    assert!(!presence.arm(first, true));
    assert!(!presence.dismiss_armed);
    assert!(!presence.arm(second, false));
    assert!(presence.arm(second, true));
    assert!(presence.dismisses(false, true, Some((900, 900))));
    assert!(!presence.dismisses(true, true, Some((900, 900))));
    assert!(!presence.dismisses(false, true, Some((20, 20))));
    presence.end_presentation();
    assert!(!presence.arm(second, true));
    assert_eq!(presence.bounds, None);
}

#[test]
fn the_pointer_picks_the_first_monitor_that_holds_it() {
    let monitors = vec![(0, 0, 1920, 1080, 30), (1920, 0, 2560, 1440, 0)];
    assert_eq!(monitor_at(&monitors, (2000, 10)), Some((1920, 0, 2560, 1440, 0)));
    assert_eq!(monitor_at(&monitors, (5, 5)), Some((0, 0, 1920, 1080, 30)));
    assert_eq!(monitor_at(&monitors, (-5, 5)), None);
}

#[test]
fn saved_spans_follow_the_local_times() {
    // All-day: both local midnights are needed.
    assert_eq!(saved_span_of(true, Some(100), None, Some(86500), 60), Some((100, 86500)));
    assert_eq!(saved_span_of(true, None, None, Some(86500), 60), None);
    assert_eq!(saved_span_of(true, Some(100), None, None, 60), None);
    // Timed: the start time, else 09:00; the end time, else the default length.
    assert_eq!(saved_span_of(false, Some(1000), None, Some(4600), 60), Some((1000, 4600)));
    assert_eq!(saved_span_of(false, None, Some(900), Some(4600), 60), Some((900, 4600)));
    assert_eq!(saved_span_of(false, None, None, Some(4600), 60), None);
    assert_eq!(saved_span_of(false, Some(1000), None, None, 90), Some((1000, 6400)));
    // Never ending before the start.
    assert_eq!(saved_span_of(false, Some(5000), None, Some(4600), 60), Some((5000, 5000)));
}

#[test]
fn drafts_show_the_given_local_times() {
    let start = midnight_utc_of(2026, 8, 12) + 9 * 3600;
    let mut event = CalendarEvent::new_local(1, "Review".to_string(), start);
    event.location = Some("Room 2".to_string());
    let shown_start = LocalTime { date: Date { year: 2026, month: 8, day: 12 }, hour: 11, minute: 5 };
    let shown_end = LocalTime { date: Date { year: 2026, month: 8, day: 12 }, hour: 12, minute: 40 };
    let draft = EditorDraft::draft_for_event(event, shown_start, shown_end);
    assert_eq!(draft.date, Date { year: 2026, month: 8, day: 12 });
    assert_eq!((draft.start_hour, draft.start_minute), (11, 5));
    assert_eq!((draft.end_hour, draft.end_minute), (12, 40));
    assert_eq!(draft.title, "Review");
    assert_eq!(draft.location, "Room 2");
    assert!(matches!(draft.kind, EditorKind::Edit(_)));
}

fn midnight_utc_of(year: i32, month: u32, day: u32) -> i64 {
    argvus_calendar::calendar::date::midnight_utc(Date { year, month, day })
}

#[test]
fn hyprland_output_is_read_for_the_popup() {
    assert_eq!(pointer_from_json(br#"{"x": 812, "y": 4}"#), Some((812, 4)));
    assert_eq!(pointer_from_json(br#"{"x": 812}"#), None);
    assert_eq!(pointer_from_json(b"not json"), None);
    assert_eq!(pointer_from_json(br#"{"x": 4294967297, "y": -1}"#), Some((1, -1)));
    let monitors = br#"[
        {"x": 0, "y": 0, "width": 1920, "height": 1080, "reserved": [0, 32, 0, 0]},
        {"x": 1920, "y": 0, "height": 1440},
        {"x": 1920, "y": 0, "width": 2560, "height": 1440}
    ]"#;
    assert_eq!(monitor_from_json(monitors, (10, 10)), Some((0, 0, 1920, 1080, 32)));
    assert_eq!(monitor_from_json(monitors, (2000, 10)), Some((1920, 0, 2560, 1440, 0)));
    assert_eq!(monitor_from_json(monitors, (-5, 10)), None);
    assert_eq!(monitor_from_json(br#"{"x": 0}"#, (0, 0)), None);
}

#[test]
fn saving_is_checked_against_the_supported_dates() {
    assert!(saving_fits_for(Date { year: 2026, month: 8, day: 12 }, 60));
    assert!(!saving_fits_for(Date { year: 2026, month: 2, day: 30 }, 60));
    assert!(!saving_fits_for(Date { year: 262142, month: 12, day: 30 }, 60));
    assert!(!saving_fits_for(Date { year: 2026, month: 8, day: 12 }, i64::MAX));
}
