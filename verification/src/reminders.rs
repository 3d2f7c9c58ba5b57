//! The reminder service's rules: which reminders are due, which repetitions
//! are too late to show, and the text of a reminder notification.
use vstd::prelude::*;

use crate::calendar::date::{local_time_in_range, timestamp_fits, valid_timestamp};
use crate::config::paths::Paths;
use crate::config::settings::{service_events_enabled, stored_flag};
use crate::calendar::event::{string_of_str, CalendarEvent, Reminder};
use crate::text::{concat, decimal, int_to_chars, string_of, two_digit_chars, two_digits};
use crate::ui::editor::{local_time_of, shows_local_time, LocalTime};

verus! {

/// How long after its time a reminder is still shown when the event has
/// already ended, in seconds.
pub const MISSED_REMINDER_GRACE_SECONDS: i64 = 300;

/// How late a repetition may fire before it is skipped, in seconds.
pub const REPEAT_GRACE_SECONDS: i64 = 120;

/// When a reminder fires: `minutes_before` minutes before the start.
pub open spec fn trigger_time(start: int, minutes_before: int) -> int {
    start - minutes_before * 60
}

/// A repetition (a reminder after the start) that fires more than two
/// minutes after its time.
pub open spec fn stale_repeat(start: int, minutes_before: int, now: int) -> bool {
    minutes_before < 0 && now - trigger_time(start, minutes_before) > REPEAT_GRACE_SECONDS
}

/// Whether a repetition is too late to show.
pub fn is_stale_repeat(start: i64, minutes_before: i64, now: i64) -> (r: bool)
    requires
        valid_timestamp(start as int),
        valid_timestamp(now as int),
        valid_timestamp(trigger_time(start as int, minutes_before as int)),
    ensures
        r == stale_repeat(start as int, minutes_before as int, now as int),
{
    proof {
        crate::ui::editor::lemma_timestamp_bounds(start as int);
        crate::ui::editor::lemma_timestamp_bounds(now as int);
        crate::ui::editor::lemma_timestamp_bounds(trigger_time(start as int, minutes_before as int));
    }
    let trigger = start - minutes_before * 60;
    minutes_before < 0 && now - trigger > REPEAT_GRACE_SECONDS
}

/// Whether an unfired reminder of an event is due at `now`: its time has
/// come, and the event has not ended or the time passed at most five
/// minutes ago.
pub open spec fn due_spec(start: int, end: int, minutes_before: int, now: int) -> bool {
    let trigger = trigger_time(start, minutes_before);
    trigger <= now && (end >= now || trigger >= now - MISSED_REMINDER_GRACE_SECONDS)
}

/// Whether the reminder `reminder` of `event` is due at `now`.
pub fn reminder_is_due(reminder: &Reminder, event: &CalendarEvent, now: i64) -> (r: bool)
    requires
        valid_timestamp(event.start as int),
        valid_timestamp(now as int),
    ensures
        r == (!event.deleted && reminder.fired_at is None && due_spec(
            event.start as int,
            event.end as int,
            reminder.minutes_before as int,
            now as int,
        )),
{
    proof {
        crate::ui::editor::lemma_timestamp_bounds(event.start as int);
        crate::ui::editor::lemma_timestamp_bounds(now as int);
    }
    if event.deleted || reminder.fired_at.is_some() {
        return false;
    }
    let start = event.start as i128;
    let trigger = start - (reminder.minutes_before as i128) * 60;
    let now_wide = now as i128;
    trigger <= now_wide && ((event.end as i128) >= now_wide || trigger >= now_wide
        - MISSED_REMINDER_GRACE_SECONDS as i128)
}

/// Whether an event without reminders gets one at its start: it started at
/// most five minutes ago.
pub fn needs_start_reminder(event: &CalendarEvent, now: i64) -> (r: bool)
    requires
        valid_timestamp(now as int),
    ensures
        r == (!event.deleted && event.reminders@.len() == 0 && event.start <= now && event.start
            >= now - MISSED_REMINDER_GRACE_SECONDS),
{
    proof {
        crate::ui::editor::lemma_timestamp_bounds(now as int);
    }
    !event.deleted && event.reminders.len() == 0 && event.start <= now && event.start >= now
        - MISSED_REMINDER_GRACE_SECONDS
}

/// What the service does with one due reminder: mark it fired, and show it
/// unless it is a stale repetition.
#[derive(Clone, Copy, Debug)]
pub struct ReminderAction {
    /// The position of the reminder in the due list.
    pub index: usize,
    pub reminder_id: i64,
    pub notify: bool,
}

/// The actions for a due list: one per reminder with an id, in order.
pub open spec fn planned(due: Seq<(Reminder, CalendarEvent)>, now: int) -> Seq<ReminderAction>
    decreases due.len(),
{
    if due.len() == 0 {
        Seq::empty()
    } else {
        let rest = planned(due.drop_last(), now);
        let (r, e) = due.last();
        match r.id {
            Some(id) => rest.push(
                ReminderAction {
                    index: (due.len() - 1) as usize,
                    reminder_id: id,
                    notify: !stale_repeat(e.start as int, r.minutes_before as int, now),
                },
            ),
            None => rest,
        }
    }
}

/// Whether each reminder of a due list fires at a supported time.
pub open spec fn plannable(due: Seq<(Reminder, CalendarEvent)>) -> bool {
    forall|i: int|
        0 <= i < due.len() ==> {
            &&& valid_timestamp(#[trigger] due[i].1.start as int)
            &&& valid_timestamp(trigger_time(due[i].1.start as int, due[i].0.minutes_before as int))
        }
}

/// Whether a due reminder's event start and firing time are supported
/// instants.
fn reminder_plannable(reminder: &Reminder, event: &CalendarEvent) -> (r: bool)
    ensures
        r == (valid_timestamp(event.start as int) && valid_timestamp(
            trigger_time(event.start as int, reminder.minutes_before as int),
        )),
{
    let at: i128 = event.start as i128 - reminder.minutes_before as i128 * 60;
    let limit: i128 = 0x800_0000_0000;
    if at <= -limit || at >= limit {
        proof {
            if valid_timestamp(at as int) {
                crate::ui::editor::lemma_timestamp_bounds(at as int);
            }
        }
        return false;
    }
    timestamp_fits(event.start) && timestamp_fits(at as i64)
}

/// Whether every due reminder can be planned (`plannable`).
pub fn is_plannable(due: &Vec<(Reminder, CalendarEvent)>) -> (r: bool)
    ensures
        r == plannable(due@),
{
    let mut i: usize = 0;
    while i < due.len()
        invariant
            i <= due.len(),
            forall|k: int| 0 <= k < i ==> {
                &&& valid_timestamp(#[trigger] due@[k].1.start as int)
                &&& valid_timestamp(trigger_time(due@[k].1.start as int, due@[k].0.minutes_before as int))
            },
        decreases due.len() - i,
    {
        if !reminder_plannable(&due[i].0, &due[i].1) {
            return false;
        }
        i = i + 1;
    }
    true
}

/// The actions of one pass of the reminder service over the due reminders.
pub fn plan_reminders(due: &Vec<(Reminder, CalendarEvent)>, now: i64) -> (r: Vec<ReminderAction>)
    requires
        plannable(due@),
        valid_timestamp(now as int),
    ensures
        r@ == planned(due@, now as int),
{
    let mut r: Vec<ReminderAction> = Vec::new();
    let mut i: usize = 0;
    while i < due.len()
        invariant
            i <= due.len(),
            plannable(due@),
            valid_timestamp(now as int),
            r@ == planned(due@.take(i as int), now as int),
        decreases due.len() - i,
    {
        assert(due@.take(i + 1).drop_last() =~= due@.take(i as int));
        let reminder = &due[i].0;
        let event = &due[i].1;
        assert(valid_timestamp(due@[i as int].1.start as int));
        match reminder.id {
            Some(id) => {
                let notify = !is_stale_repeat(event.start, reminder.minutes_before, now);
                r.push(ReminderAction { index: i, reminder_id: id, notify });
            },
            None => {},
        }
        i = i + 1;
    }
    assert(due@.take(due.len() as int) =~= due@);
    r
}

/// The local time of day shown in a notification, `HH:MM`.
pub open spec fn clock_text(at: LocalTime) -> Seq<char> {
    two_digits(at.hour as nat) + seq![':'] + two_digits(at.minute as nat)
}

/// The body of a reminder notification for an event starting at local time
/// `at`.
pub open spec fn body_spec(all_day: bool, minutes_before: int, at: LocalTime) -> Seq<char> {
    if all_day && minutes_before < 0 {
        "All-day event reminder"@
    } else if minutes_before < 0 {
        "Event in progress\nStarted at "@ + clock_text(at)
    } else if minutes_before == 0 {
        "Starts now\n"@ + clock_text(at)
    } else {
        "Starts in "@ + decimal(minutes_before) + " minutes\n"@ + clock_text(at)
    }
}

/// The body of a reminder notification.
pub fn notification_body(all_day: bool, minutes_before: i64, at: LocalTime) -> (r: String)
    requires
        at.hour < 24,
        at.minute < 60,
    ensures
        r@ == body_spec(all_day, minutes_before as int, at),
{
    let hour = two_digit_chars(at.hour);
    let minute = two_digit_chars(at.minute);
    let colon: Vec<char> = vec![':'];
    let hm1 = concat(hour.as_slice(), colon.as_slice());
    let clock = concat(hm1.as_slice(), minute.as_slice());
    assert(clock@ =~= clock_text(at));
    if all_day && minutes_before < 0 {
        string_of_str("All-day event reminder")
    } else if minutes_before < 0 {
        let head = crate::text::chars_of("Event in progress\nStarted at ");
        let all = concat(head.as_slice(), clock.as_slice());
        string_of(all.as_slice())
    } else if minutes_before == 0 {
        let head = crate::text::chars_of("Starts now\n");
        let all = concat(head.as_slice(), clock.as_slice());
        string_of(all.as_slice())
    } else {
        let head = crate::text::chars_of("Starts in ");
        let n = int_to_chars(minutes_before);
        let mid = crate::text::chars_of(" minutes\n");
        let a = concat(head.as_slice(), n.as_slice());
        let b = concat(a.as_slice(), mid.as_slice());
        let all = concat(b.as_slice(), clock.as_slice());
        string_of(all.as_slice())
    }
}

/// The body of the notification for a reminder of `event`, with the start
/// shown in the machine's time zone.
pub fn reminder_body(event: &CalendarEvent, minutes_before: i64) -> (r: String)
    requires
        local_time_in_range(event.start as int),
    ensures
        exists|at: LocalTime|
            #[trigger] shows_local_time(event.start as int, at) && r@ == body_spec(
                event.all_day,
                minutes_before as int,
                at,
            ),
{
    let at = local_time_of(event.start);
    notification_body(event.all_day, minutes_before, at)
}

fn copy_paths(p: &Paths) -> (r: Paths)
    ensures
        r == *p,
{
    Paths {
        config_dir: p.config_dir.clone(),
        data_dir: p.data_dir.clone(),
        state_dir: p.state_dir.clone(),
        cache_dir: p.cache_dir.clone(),
        database: p.database.clone(),
        config_file: p.config_file.clone(),
        legacy_settings_file: p.legacy_settings_file.clone(),
        user_config_file: p.user_config_file.clone(),
        user_style: p.user_style.clone(),
        theme_file: p.theme_file.clone(),
        theme_dir: p.theme_dir.clone(),
        cache_theme_file: p.cache_theme_file.clone(),
        active_argvus_theme_file: p.active_argvus_theme_file.clone(),
        events_enabled_file: p.events_enabled_file.clone(),
    }
}

/// The reminder service: the store it reads and how often it looks for
/// due reminders.
#[derive(Clone, Debug)]
pub struct ReminderScheduler {
    pub paths: Paths,
    pub database_path: String,
    pub poll_interval_seconds: u64,
}

impl ReminderScheduler {
    /// A scheduler of the store in `paths` that looks every thirty seconds.
    pub fn new(paths: &Paths) -> (r: ReminderScheduler)
        ensures
            r.paths == *paths,
            r.database_path@ == paths.database@,
            r.poll_interval_seconds == 30,
    {
        ReminderScheduler {
            paths: copy_paths(paths),
            database_path: paths.database.clone(),
            poll_interval_seconds: 30,
        }
    }
}

/// The scheduler the reminder service runs, given the contents of the
/// events/reminders switch file: none unless the switch is on.
pub fn run_service(paths: Paths, events_flag: Option<&str>) -> (r: Option<ReminderScheduler>)
    ensures
        r is Some <==> stored_flag(events_flag) == Some(true),
        r matches Some(s) ==> s.paths == paths && s.database_path@ == paths.database@
            && s.poll_interval_seconds == 30,
{
    if !service_events_enabled(events_flag) {
        return None;
    }
    Some(ReminderScheduler::new(&paths))
}

} // verus!
