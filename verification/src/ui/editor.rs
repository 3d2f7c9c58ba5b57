//! The event editor: its draft, the reminders a draft schedules, and the
//! event that saving a draft stores.
use vstd::prelude::*;

use crate::calendar::date::{
    checked_add_days, date_before, epoch_day_number, local_time_in_range, max_day_number,
    midnight_utc, min_day_number, timestamp_fits, today, valid_timestamp, Date, MAX_YEAR,
};
use crate::calendar::event::{string_of_str, CalendarEvent, Reminder};
use crate::error::ArgvusError;
use crate::text::{chars_of, string_of};

verus! {

/// Whether the draft creates a new event or edits an existing one.
#[derive(Clone, Debug)]
pub enum EditorKind {
    New,
    Edit(Box<CalendarEvent>),
}

/// The values of the event editor form.
#[derive(Clone, Debug)]
pub struct EditorDraft {
    pub kind: EditorKind,
    pub date: Date,
    pub title: String,
    pub location: String,
    pub description: String,
    pub start_hour: u32,
    pub start_minute: u32,
    pub end_hour: u32,
    pub end_minute: u32,
    pub all_day: bool,
    pub reminder_enabled: bool,
    pub reminder_hours: u32,
    pub reminder_minutes: u32,
    pub repeat_all_day: bool,
    pub repeat_hours: u32,
    pub repeat_minutes: u32,
}

/// A local date and time of day, as the editor shows an instant.
#[derive(Clone, Copy, Debug)]
pub struct LocalTime {
    pub date: Date,
    pub hour: u32,
    pub minute: u32,
}

/// The UNIX time of a date and time of day read as UTC.
pub open spec fn naive_timestamp(date: Date, hour: int, minute: int) -> int {
    (date.day_number() - epoch_day_number()) * 86400 + hour * 3600 + minute * 60
}

/// The local time an instant shows, in the machine's time zone.
///
/// Trusted: `chrono::DateTime::<Utc>::with_timezone(&Local)`; which local
/// time it is depends on the machine's time zone, and it is a valid date and
/// time of day whose seconds are dropped; it differs from the instant's time
/// in UTC by the zone's offset, less than a day (`chrono::FixedOffset`
/// holds offsets from -86399 to 86399 seconds).
/// `DateTime::date_naive` panics ("Local time out of range")
/// when the local time leaves the supported range, which can happen within
/// one UTC offset (less than a day) of either end; `requires` leaves those
/// times out.
#[verifier::external_body]
pub(crate) fn local_time_of(t: i64) -> (r: LocalTime)
    requires
        local_time_in_range(t as int),
    ensures
        shows_local_time(t as int, r),
{
    let utc = chrono::DateTime::from_timestamp(t, 0).unwrap();
    let local = utc.with_timezone(&chrono::Local);
    let d = local.date_naive();
    LocalTime {
        date: Date {
            year: chrono::Datelike::year(&d),
            month: chrono::Datelike::month(&d),
            day: chrono::Datelike::day(&d),
        },
        hour: chrono::Timelike::hour(&local),
        minute: chrono::Timelike::minute(&local),
    }
}

/// The UNIX time of a local date and time of day, when exactly one instant
/// has that local time.
///
/// Trusted: `chrono::Local.from_local_datetime(..).single()`; the instant
/// depends on the machine's time zone, whose offset from UTC is less than a
/// day (`chrono::FixedOffset`), and there is none in a gap and two in an
/// overlap of the local clock.
#[verifier::external_body]
fn local_to_utc(date: Date, hour: u32, minute: u32) -> (r: Option<i64>)
    requires
        date.valid(),
        hour < 24,
        minute < 60,
    ensures
        r matches Some(t) ==> naive_timestamp(date, hour as int, minute as int) - 86400 < t
            < naive_timestamp(date, hour as int, minute as int) + 86400,
{
    let d = chrono::NaiveDate::from_ymd_opt(date.year, date.month, date.day).unwrap();
    let time = chrono::NaiveTime::from_hms_opt(hour, minute, 0).unwrap();
    chrono::TimeZone::from_local_datetime(&chrono::Local, &d.and_time(time)).single().map(
        |dt| dt.timestamp(),
    )
}

/// The UNIX time of a local date and time of day: `None` for an hour past 23
/// or a minute past 59, and when the local clock skips or repeats that time.
pub fn local_datetime(date: Date, hour: u32, minute: u32) -> (r: Option<i64>)
    requires
        date.valid(),
    ensures
        hour >= 24 || minute >= 60 ==> r is None,
        r matches Some(t) ==> naive_timestamp(date, hour as int, minute as int) - 86400 < t
            < naive_timestamp(date, hour as int, minute as int) + 86400,
{
    if hour >= 24 || minute >= 60 {
        return None;
    }
    local_to_utc(date, hour, minute)
}

/// `None` for an empty string, else the string.
pub fn empty_to_none(value: String) -> (r: Option<String>)
    ensures
        value@.len() == 0 ==> r is None,
        value@.len() > 0 ==> r == Some(value),
{
    if value.as_str().is_empty() {
        None
    } else {
        Some(value)
    }
}

/// The whole minutes of a span of seconds, rounded toward zero.
pub open spec fn whole_minutes(seconds: int) -> int {
    if seconds >= 0 {
        seconds / 60
    } else {
        -((-seconds) / 60)
    }
}

/// The offsets (minutes before the start, negative) at which an all-day
/// event repeats its notification: every `interval` minutes strictly within
/// its `duration` minutes.
pub open spec fn repeat_offsets(interval: int, duration: int) -> Seq<i64> {
    let count = if duration > interval {
        (duration - 1) / interval
    } else {
        0
    };
    Seq::new(count as nat, |i: int| (-((i + 1) * interval)) as i64)
}

/// The minutes before the start at which the draft's reminder fires: the
/// configured lead time, or the start itself when that lead time has
/// already passed at `now`.
pub open spec fn reminder_lead(d: EditorDraft, start: int, now: int) -> int {
    let configured = d.reminder_hours * 60 + d.reminder_minutes;
    if configured > 0 && start - configured * 60 <= now {
        0
    } else {
        configured
    }
}

/// A repetition of an all-day event's notification, `-m` minutes into it.
pub open spec fn repeat_reminder(event_id: Option<i64>, m: i64) -> Reminder {
    Reminder { id: None, event_id, minutes_before: m, fired_at: None }
}

/// The reminders a draft schedules for an event from `start` to `end`.
pub open spec fn draft_reminders(
    d: EditorDraft,
    event_id: Option<i64>,
    start: int,
    end: int,
    now: int,
) -> Seq<Reminder> {
    let first: Seq<Reminder> = if d.reminder_enabled {
        seq![
            Reminder {
                id: None,
                event_id,
                minutes_before: reminder_lead(d, start, now) as i64,
                fired_at: None,
            },
        ]
    } else {
        seq![]
    };
    let interval = d.repeat_hours * 60 + d.repeat_minutes;
    let repeats = if d.all_day && d.repeat_all_day && interval > 0 {
        repeat_offsets(interval, whole_minutes(end - start))
    } else {
        seq![]
    };
    first + repeats.map_values(|m: i64| repeat_reminder(event_id, m))
}

/// The reminders a draft schedules: the configured one (moved to the start
/// when its time has passed), and for an all-day event with repetition,
/// one every interval during the day.
pub fn build_reminders(
    draft: &EditorDraft,
    event_id: Option<i64>,
    start: i64,
    end: i64,
    now: i64,
) -> (r: Vec<Reminder>)
    requires
        valid_timestamp(start as int),
        valid_timestamp(end as int),
    ensures
        r@ == draft_reminders(*draft, event_id, start as int, end as int, now as int),
{
    let mut reminders: Vec<Reminder> = Vec::new();
    if draft.reminder_enabled {
        let configured: i64 = draft.reminder_hours as i64 * 60 + draft.reminder_minutes as i64;
        let minutes_before = if configured > 0 && start - configured * 60 <= now {
            0
        } else {
            configured
        };
        reminders.push(Reminder { id: None, event_id, minutes_before, fired_at: None });
    }
    proof {
        lemma_timestamp_bounds(start as int);
        lemma_timestamp_bounds(end as int);
    }
    let ghost first = reminders@;
    let interval: i64 = draft.repeat_hours as i64 * 60 + draft.repeat_minutes as i64;
    if draft.all_day && draft.repeat_all_day && interval > 0 {
        let span = end - start;
        let duration: i64 = if span >= 0 {
            span / 60
        } else {
            -((-span) / 60)
        };
        let mut elapsed = interval;
        let ghost mut k: int = 0;
        assert(elapsed == (k + 1) * interval);
        assert(reminders@ =~= first + Seq::new(
            k as nat,
            |i: int| (-((i + 1) * interval)) as i64,
        ).map_values(|m: i64| repeat_reminder(event_id, m)));
        while elapsed < duration
            invariant
                interval > 0,
                elapsed == (k + 1) * interval,
                0 <= k,
                k * interval < duration || k == 0,
                duration < 0x10_0000_0000_0000,
                interval <= 0x40_0000_0000,
                reminders@ == first + Seq::new(
                    k as nat,
                    |i: int| (-((i + 1) * interval)) as i64,
                ).map_values(|m: i64| repeat_reminder(event_id, m)),
            decreases duration - elapsed + interval,
        {
            let ghost before = reminders@;
            assert(-elapsed == -((k + 1) * interval));
            let rem = Reminder { id: None, event_id, minutes_before: -elapsed, fired_at: None };
            assert(rem == repeat_reminder(event_id, (-((k + 1) * interval)) as i64));
            reminders.push(rem);
            assert(reminders@ == before.push(rem));
            assert(Seq::new((k + 1) as nat, |i: int| (-((i + 1) * interval)) as i64).map_values(|m: i64| repeat_reminder(event_id, m))
                =~= Seq::new(k as nat, |i: int| (-((i + 1) * interval)) as i64).map_values(
                |m: i64| repeat_reminder(event_id, m),
            ).push(repeat_reminder(event_id, (-((k + 1) * interval)) as i64)));
            assert(reminders@ =~= first + Seq::new(
                (k + 1) as nat,
                |i: int| (-((i + 1) * interval)) as i64,
            ).map_values(|m: i64| repeat_reminder(event_id, m)));
            elapsed = elapsed + interval;
            proof {
                k = k + 1;
                assert(elapsed == (k + 1) * interval) by (nonlinear_arith)
                    requires
                        elapsed == k * interval + interval,
                ;
            }
        }
        proof {
            let count: int = if duration > interval {
                (duration - 1) as int / interval as int
            } else {
                0
            };
            assert((k + 1) * interval == k * interval + interval) by (nonlinear_arith);
            if k > 0 {
                assert(k * interval <= duration - 1 < (k + 1) * interval);
                vstd::arithmetic::div_mod::lemma_fundamental_div_mod_converse(
                    duration - 1,
                    interval as int,
                    k,
                    duration - 1 - k * interval,
                );
                assert(duration > interval) by (nonlinear_arith)
                    requires
                        k >= 1,
                        k * interval < duration,
                        interval > 0,
                ;
            } else {
                assert(duration <= interval);
            }
            assert(count == k);
        }
    }
    reminders
}

/// A valid UNIX time lies within about 280000 years of 1970.
pub proof fn lemma_timestamp_bounds(t: int)
    requires
        valid_timestamp(t),
    ensures
        -0x800_0000_0000 < t < 0x800_0000_0000,
{
    assert(min_day_number() > -100_000_000);
    assert(max_day_number() < 100_000_000);
}


/// The reminder lead time a default in minutes gives: negatives become 0,
/// and the value is taken as a `u32`.
pub open spec fn default_lead(default_reminder_minutes: i64) -> u32 {
    (if default_reminder_minutes < 0 {
        0
    } else {
        default_reminder_minutes
    }) as u32
}

/// The first non-negative reminder lead time of `rs`, when there is one.
pub open spec fn first_lead(rs: Seq<Reminder>) -> Option<i64>
    decreases rs.len(),
{
    if rs.len() == 0 {
        None
    } else if rs[0].minutes_before >= 0 {
        Some(rs[0].minutes_before)
    } else {
        first_lead(rs.subrange(1, rs.len() as int))
    }
}

/// The magnitude of the smallest negative lead time of `rs` (the repeat
/// interval of an all-day event), when there is one.
pub open spec fn repeat_interval(rs: Seq<Reminder>) -> Option<u32>
    decreases rs.len(),
{
    if rs.len() == 0 {
        None
    } else {
        let rest = repeat_interval(rs.drop_last());
        let m = rs.last().minutes_before;
        if m < 0 {
            let a = (-(m as int)) as u32;
            match rest {
                Some(b) => Some(if a < b {
                    a
                } else {
                    b
                }),
                None => Some(a),
            }
        } else {
            rest
        }
    }
}

/// Whether `d` is the draft for editing `event` whose start and end show
/// the local times `start` and `end`: the event itself, the date and time of
/// day of `start`, the time of day of `end`, its title, location and
/// description (empty when it has none), its all-day flag, its first
/// non-negative reminder and its all-day repeat interval (two hours when it
/// has none).
pub open spec fn drafts_event(
    event: CalendarEvent,
    start: LocalTime,
    end: LocalTime,
    d: EditorDraft,
) -> bool {
    &&& d.kind matches EditorKind::Edit(e) && *e == event
    &&& d.date == start.date
    &&& d.start_hour == start.hour && d.start_minute == start.minute
    &&& d.end_hour == end.hour && d.end_minute == end.minute
    &&& d.title@ == event.title@
    &&& d.location@ == match event.location {
        Some(l) => l@,
        None => Seq::<char>::empty(),
    }
    &&& d.description@ == match event.description {
        Some(l) => l@,
        None => Seq::<char>::empty(),
    }
    &&& d.all_day == event.all_day
    &&& d.reminder_enabled == (first_lead(event.reminders@) is Some)
    &&& d.reminder_hours == lead_or_zero(event.reminders@) / 60
    &&& d.reminder_minutes == lead_or_zero(event.reminders@) % 60
    &&& d.repeat_all_day == (repeat_interval(event.reminders@) is Some)
    &&& d.repeat_hours == interval_or_default(event.reminders@) / 60
    &&& d.repeat_minutes == interval_or_default(event.reminders@) % 60
}

/// The first non-negative reminder lead in minutes, or 0.
pub open spec fn lead_or_zero(reminders: Seq<Reminder>) -> u32 {
    match first_lead(reminders) {
        Some(m) => m as u32,
        None => 0,
    }
}

/// The all-day repeat interval in minutes, or two hours.
pub open spec fn interval_or_default(reminders: Seq<Reminder>) -> u32 {
    match repeat_interval(reminders) {
        Some(m) => m,
        None => 120,
    }
}

/// Whether `at` is a local time that an instant `t` can show: a valid date
/// and time of day, `t`'s time in UTC moved by an offset of less than a day
/// (at most 86399 seconds either way), with its seconds (at most 59)
/// dropped.
pub open spec fn shows_local_time(t: int, at: LocalTime) -> bool {
    &&& at.date.valid()
    &&& at.hour < 24
    &&& at.minute < 60
    &&& t - 86399 - 59 <= naive_timestamp(at.date, at.hour as int, at.minute as int) <= t + 86399
}

/// The local date an instant shows lies within a day of its date in UTC:
/// the day number is at most one away from the UTC day of `t`.
pub proof fn lemma_local_date_near_utc_date(t: int, at: LocalTime)
    requires
        shows_local_time(t, at),
    ensures
        epoch_day_number() + t / 86400 - 1 <= at.date.day_number() <= epoch_day_number() + t
            / 86400 + 1,
{
    let n = naive_timestamp(at.date, at.hour as int, at.minute as int);
    let d = at.date.day_number() - epoch_day_number();
    let s = at.hour * 3600 + at.minute * 60;
    assert(n == d * 86400 + s);
    assert(0 <= s <= 86340);
    let k = t / 86400;
    vstd::arithmetic::div_mod::lemma_fundamental_div_mod(t, 86400);
    assert(86400 * k <= t < 86400 * k + 86400);
    assert(k - 1 <= d <= k + 1) by (nonlinear_arith)
        requires
            n == d * 86400 + s,
            0 <= s <= 86340,
            86400 * k <= t < 86400 * k + 86400,
            t - 86458 <= n <= t + 86399,
    ;
}

impl EditorDraft {
    /// A draft for a new event on `date`: 09:00 to 10:00 with the default
    /// reminder, and a repetition every two hours when made all-day.
    pub fn new(date: Date, default_reminder_minutes: i64) -> (d: EditorDraft)
        ensures
            d.kind is New,
            d.date == date,
            d.title@.len() == 0,
            d.location@.len() == 0,
            d.description@.len() == 0,
            d.start_hour == 9 && d.start_minute == 0,
            d.end_hour == 10 && d.end_minute == 0,
            !d.all_day,
            d.reminder_enabled,
            d.reminder_hours == default_lead(default_reminder_minutes) / 60,
            d.reminder_minutes == default_lead(default_reminder_minutes) % 60,
            !d.repeat_all_day,
            d.repeat_hours == 2 && d.repeat_minutes == 0,
    {
        let clamped: i64 = if default_reminder_minutes < 0 {
            0
        } else {
            default_reminder_minutes
        };
        let reminder = clamped as u32;
        EditorDraft {
            kind: EditorKind::New,
            date,
            title: String::new(),
            location: String::new(),
            description: String::new(),
            start_hour: 9,
            start_minute: 0,
            end_hour: 10,
            end_minute: 0,
            all_day: false,
            reminder_enabled: true,
            reminder_hours: reminder / 60,
            reminder_minutes: reminder % 60,
            repeat_all_day: false,
            repeat_hours: 2,
            repeat_minutes: 0,
        }
    }

    /// The draft for editing `event`, given the local times its start and
    /// end show (see `drafts_event`).
    pub fn draft_for_event(event: CalendarEvent, start: LocalTime, end: LocalTime) -> (d: EditorDraft)
        ensures
            drafts_event(event, start, end, d),
    {
        let mut reminder: Option<u32> = None;
        let mut i: usize = 0;
        assert(event.reminders@.subrange(0, event.reminders@.len() as int) =~= event.reminders@);
        while i < event.reminders.len()
            invariant_except_break
                i <= event.reminders.len(),
                reminder is None,
                first_lead(event.reminders@) == first_lead(event.reminders@.subrange(
                    i as int,
                    event.reminders@.len() as int,
                )),
            ensures
                reminder == (match first_lead(event.reminders@) {
                    Some(m) => Some(m as u32),
                    None => None::<u32>,
                }),
            decreases event.reminders.len() - i,
        {
            let ghost rest = event.reminders@.subrange(i as int, event.reminders@.len() as int);
            assert(rest.subrange(1, rest.len() as int) =~= event.reminders@.subrange(
                i + 1,
                event.reminders@.len() as int,
            ));
            if event.reminders[i].minutes_before >= 0 {
                reminder = Some(event.reminders[i].minutes_before as u32);
                break;
            }
            i = i + 1;
            if i == event.reminders.len() {
                assert(event.reminders@.subrange(i as int, i as int) =~= Seq::<Reminder>::empty());
            }
        }
        let mut repeat: Option<u32> = None;
        let mut j: usize = 0;
        while j < event.reminders.len()
            invariant
                j <= event.reminders.len(),
                repeat == repeat_interval(event.reminders@.take(j as int)),
            decreases event.reminders.len() - j,
        {
            let m = event.reminders[j].minutes_before;
            assert(event.reminders@.take(j + 1).drop_last() =~= event.reminders@.take(j as int));
            if m < 0 {
                let a: u32 = if m == i64::MIN {
                    0
                } else {
                    (-m) as u32
                };
                assert(a == (-(m as int)) as u32) by (bit_vector)
                    requires
                        m < 0,
                        a == (if m == i64::MIN {
                            0u32
                        } else {
                            (-m) as u32
                        }),
                ;
                repeat = match repeat {
                    Some(b) => Some(if a < b {
                        a
                    } else {
                        b
                    }),
                    None => Some(a),
                };
            }
            j = j + 1;
        }
        assert(event.reminders@.take(event.reminders@.len() as int) =~= event.reminders@);
        let reminder_value: u32 = match reminder {
            Some(m) => m,
            None => 0,
        };
        let repeat_value: u32 = match repeat {
            Some(m) => m,
            None => 120,
        };
        let location = match event.location {
            Some(ref l) => copy_string(l),
            None => String::new(),
        };
        let description = match event.description {
            Some(ref l) => copy_string(l),
            None => String::new(),
        };
        let title = copy_string(&event.title);
        let all_day = event.all_day;
        EditorDraft {
            kind: EditorKind::Edit(Box::new(event)),
            date: start.date,
            title,
            location,
            description,
            start_hour: start.hour,
            start_minute: start.minute,
            end_hour: end.hour,
            end_minute: end.minute,
            all_day,
            reminder_enabled: reminder.is_some(),
            reminder_hours: reminder_value / 60,
            reminder_minutes: reminder_value % 60,
            repeat_all_day: repeat.is_some(),
            repeat_hours: repeat_value / 60,
            repeat_minutes: repeat_value % 60,
        }
    }

    /// A draft for editing `event`, showing its start and end in the
    /// machine's time zone: `draft_for_event` of the local times they show.
    pub fn from_event(event: CalendarEvent) -> (d: EditorDraft)
        requires
            local_time_in_range(event.start as int),
            local_time_in_range(event.end as int),
        ensures
            exists|start: LocalTime, end: LocalTime|
                shows_local_time(event.start as int, start) && shows_local_time(event.end as int, end)
                    && #[trigger] drafts_event(event, start, end, d),
    {
        let start = local_time_of(event.start);
        let end = local_time_of(event.end);
        EditorDraft::draft_for_event(event, start, end)
    }
}

fn copy_string(s: &String) -> (r: String)
    ensures
        r@ == s@,
{
    let v = chars_of(s.as_str());
    string_of(v.as_slice())
}


/// The message for saving an event on a past date.
pub open spec fn past_date_message() -> Seq<char> {
    "cannot create or update an event in the past"@
}

/// Refuses a draft dated before `today`.
pub fn check_not_past(draft: &EditorDraft, today: Date) -> (r: Result<(), ArgvusError>)
    ensures
        r is Ok <==> !date_before(draft.date, today),
        r matches Err(e) ==> (e matches ArgvusError::Configuration(m) && m@ == past_date_message()),
{
    if draft.date.is_before(&today) {
        Err(ArgvusError::Configuration(string_of_str("cannot create or update an event in the past")))
    } else {
        Ok(())
    }
}

/// The message when the local clock has no such time on the date.
pub open spec fn no_local_time_message() -> Seq<char> {
    "the local time does not exist on that date"@
}

/// Whether the event instants around `date` stay in the supported range,
/// also when a default length of `duration` minutes is added.
pub open spec fn saving_fits(date: Date, duration: i64) -> bool {
    &&& date.valid()
    &&& min_day_number() + 3 <= date.day_number() <= max_day_number() - 3
    &&& valid_timestamp(naive_timestamp(date, 0, 0) - 2 * 86400 + duration * 60)
    &&& valid_timestamp(naive_timestamp(date, 0, 0) + 3 * 86400 + duration * 60)
}

/// Whether a draft dated `date` can be saved with a default length of
/// `duration` minutes (`saving_fits`).
pub fn saving_fits_for(date: Date, duration: i64) -> (r: bool)
    ensures
        r == saving_fits(date, duration),
{
    if Date::from_ymd_opt(date.year, date.month, date.day).is_none() {
        return false;
    }
    let m = midnight_utc(date);
    let lo = midnight_utc(Date { year: crate::calendar::date::MIN_YEAR, month: 1, day: 1 });
    let hi = midnight_utc(Date { year: MAX_YEAR, month: 12, day: 31 });
    proof {
        assert(m == naive_timestamp(date, 0, 0));
        assert(m >= lo + 3 * 86400 <==> date.day_number() >= min_day_number() + 3);
        assert(m <= hi - 3 * 86400 <==> date.day_number() <= max_day_number() - 3);
    }
    if m < lo + 3 * 86400 || m > hi - 3 * 86400 {
        return false;
    }
    let early: i128 = m as i128 - 2 * 86400 + duration as i128 * 60;
    let late: i128 = m as i128 + 3 * 86400 + duration as i128 * 60;
    let limit: i128 = 0x800_0000_0000;
    if early <= -limit || early >= limit || late <= -limit || late >= limit {
        proof {
            if valid_timestamp(early as int) {
                lemma_timestamp_bounds(early as int);
            }
            if valid_timestamp(late as int) {
                lemma_timestamp_bounds(late as int);
            }
        }
        return false;
    }
    timestamp_fits(early as i64) && timestamp_fits(late as i64)
}

proof fn lemma_valid_between(lo: int, t: int, hi: int)
    requires
        valid_timestamp(lo),
        valid_timestamp(hi),
        lo <= t <= hi,
    ensures
        valid_timestamp(t),
{
    vstd::arithmetic::div_mod::lemma_div_is_ordered(lo, t, 86400);
    vstd::arithmetic::div_mod::lemma_div_is_ordered(t, hi, 86400);
}

proof fn lemma_valid_near_day(date: Date, t: int)
    requires
        date.valid(),
        min_day_number() + 3 <= date.day_number() <= max_day_number() - 3,
        naive_timestamp(date, 0, 0) - 2 * 86400 <= t <= naive_timestamp(date, 0, 0) + 3 * 86400,
    ensures
        valid_timestamp(t),
{
    let n = date.day_number() - epoch_day_number();
    assert(naive_timestamp(date, 0, 0) == n * 86400);
    vstd::arithmetic::div_mod::lemma_div_is_ordered(n * 86400 - 2 * 86400, t, 86400);
    vstd::arithmetic::div_mod::lemma_div_is_ordered(t, n * 86400 + 3 * 86400, 86400);
    vstd::arithmetic::div_mod::lemma_fundamental_div_mod_converse((n - 2) * 86400, 86400, n - 2, 0);
    vstd::arithmetic::div_mod::lemma_fundamental_div_mod_converse((n + 3) * 86400, 86400, n + 3, 0);
    assert((n - 2) * 86400 == n * 86400 - 2 * 86400) by (nonlinear_arith);
    assert((n + 3) * 86400 == n * 86400 + 3 * 86400) by (nonlinear_arith);
}

/// The title an event gets from a draft.
pub open spec fn saved_title(d: EditorDraft) -> Seq<char> {
    match d.kind {
        EditorKind::New => if d.title@.len() == 0 {
            "New event"@
        } else {
            d.title@
        },
        EditorKind::Edit(e) => if d.title@.len() == 0 {
            e.title@
        } else {
            d.title@
        },
    }
}

/// The optional text a form field gives: none when it is empty.
pub open spec fn field_value(v: Seq<char>) -> Option<Seq<char>> {
    if v.len() == 0 {
        None
    } else {
        Some(v)
    }
}

/// The view of an optional string.
pub open spec fn opt_view(v: Option<String>) -> Option<Seq<char>> {
    match v {
        Some(s) => Some(s@),
        None => None,
    }
}

/// Whether `o` can be what `local_datetime` gives for the local time
/// `hour:minute` on `date`: nothing for an hour past 23 or a minute past 59,
/// and otherwise, when something, an instant within a day of that time read
/// as UTC.
pub open spec fn local_outcome(date: Date, hour: int, minute: int, o: Option<i64>) -> bool {
    &&& (hour >= 24 || minute >= 60 ==> o is None)
    &&& within_a_day(naive_timestamp(date, hour, minute), o)
}

/// Whether `o`, when something, is an instant within a day of `base`.
pub open spec fn within_a_day(base: int, o: Option<i64>) -> bool {
    o matches Some(t) ==> base - 86400 < t < base + 86400
}

/// The start and end an event is saved with, given what the local clock
/// makes of the draft's times. All-day: `first` and `last` are the local
/// midnights of the date and of the next day, and both must exist. Timed:
/// `first` is the draft's start time, `nine` 09:00 of the date (used when the
/// start time does not exist; then one of them must), `last` the end time;
/// when the end time does not exist the event lasts `duration` minutes, and
/// it never ends before it starts. `None` when a needed time does not exist.
pub open spec fn saved_span(
    all_day: bool,
    first: Option<i64>,
    nine: Option<i64>,
    last: Option<i64>,
    duration: i64,
) -> Option<(int, int)> {
    if all_day {
        match (first, last) {
            (Some(s), Some(e)) => Some((s as int, e as int)),
            _ => None,
        }
    } else {
        let start = match first {
            Some(s) => Some(s),
            None => nine,
        };
        match start {
            Some(s) => {
                let e = match last {
                    Some(e) => e as int,
                    None => s + duration * 60,
                };
                Some((s as int, if e >= s { e } else { s as int }))
            },
            None => None,
        }
    }
}

/// The start and end an event is saved with (`saved_span`).
pub fn saved_span_of(
    all_day: bool,
    first: Option<i64>,
    nine: Option<i64>,
    last: Option<i64>,
    duration: i64,
) -> (r: Option<(i64, i64)>)
    requires
        !all_day && last is None ==> match first {
            Some(s) => i64::MIN <= s + duration * 60 <= i64::MAX,
            None => nine matches Some(s) ==> i64::MIN <= s + duration * 60 <= i64::MAX,
        },
    ensures
        r is None <==> saved_span(all_day, first, nine, last, duration) is None,
        r matches Some(p) ==> saved_span(all_day, first, nine, last, duration) == Some(
            (p.0 as int, p.1 as int),
        ),
{
    if all_day {
        match (first, last) {
            (Some(s), Some(e)) => Some((s, e)),
            _ => None,
        }
    } else {
        let start = match first {
            Some(s) => s,
            None => match nine {
                Some(s) => s,
                None => {
                    return None;
                },
            },
        };
        let end = match last {
            Some(e) => e,
            None => (start as i128 + duration as i128 * 60) as i64,
        };
        Some((start, if end >= start { end } else { start }))
    }
}

/// Whether `e` holds what saving `draft` stores besides its start and end:
/// the title, location and description, the all-day flag, the dirty flag,
/// the reminders of `build_reminders` for that span, and the id, calendar
/// and source of a new event or of the edited one.
pub open spec fn saved_fields(
    draft: EditorDraft,
    e: CalendarEvent,
    calendar_id: i64,
    now: i64,
) -> bool {
    &&& e.title@ == saved_title(draft)
    &&& opt_view(e.location) == field_value(draft.location@)
    &&& opt_view(e.description) == field_value(draft.description@)
    &&& e.all_day == draft.all_day
    &&& e.dirty
    &&& valid_timestamp(e.start as int)
    &&& valid_timestamp(e.end as int)
    &&& e.reminders@ == draft_reminders(draft, None, e.start as int, e.end as int, now as int)
    &&& match draft.kind {
        EditorKind::New => {
            &&& e.id is None
            &&& e.calendar_id == calendar_id
            &&& e.source == crate::calendar::event::CalendarSource::Local
        },
        EditorKind::Edit(old) => {
            &&& e.id == old.id
            &&& e.uid == old.uid
            &&& e.calendar_id == old.calendar_id
            &&& e.source == old.source
        },
    }
}

/// Whether the local times a draft is saved with can give `first`, `nine`
/// and `last` (see `saved_span`): the local midnights of the date and of the
/// next day for an all-day draft; the start time, 09:00 and the end time of
/// the date for a timed one.
pub open spec fn draft_outcomes(
    draft: EditorDraft,
    first: Option<i64>,
    nine: Option<i64>,
    last: Option<i64>,
) -> bool {
    if draft.all_day {
        &&& local_outcome(draft.date, 0, 0, first)
        &&& within_a_day(naive_timestamp(draft.date, 0, 0) + 86400, last)
    } else {
        &&& local_outcome(draft.date, draft.start_hour as int, draft.start_minute as int, first)
        &&& local_outcome(draft.date, 9, 0, nine)
        &&& local_outcome(draft.date, draft.end_hour as int, draft.end_minute as int, last)
    }
}

/// The event that saving a draft stores: its start and end are
/// `saved_span` of what the local clock makes of the draft's times (see
/// `draft_outcomes`), its other values `saved_fields`; when a needed local
/// time does not exist, the error says so.
pub fn build_saved_event(
    draft: EditorDraft,
    default_duration_minutes: i64,
    calendar_id: i64,
    now: i64,
) -> (r: Result<CalendarEvent, ArgvusError>)
    requires
        saving_fits(draft.date, default_duration_minutes),
    ensures
        exists|first: Option<i64>, nine: Option<i64>, last: Option<i64>|
            #[trigger] draft_outcomes(draft, first, nine, last) && match saved_span(
                draft.all_day,
                first,
                nine,
                last,
                default_duration_minutes,
            ) {
                Some(span) => r matches Ok(e) && e.start == span.0 && e.end == span.1
                    && saved_fields(draft, e, calendar_id, now),
                None => r matches Err(e) && e matches ArgvusError::Configuration(m) && m@
                    == no_local_time_message(),
            },
{
    let date = draft.date;
    let (first, nine, last) = if draft.all_day {
        let first = local_datetime(date, 0, 0);
        let next_day = match checked_add_days(date, 1) {
            Some(d) => d,
            None => {
                assert(false);
                return Err(no_local_time());
            },
        };
        let last = local_datetime(next_day, 0, 0);
        assert(naive_timestamp(next_day, 0, 0) == naive_timestamp(date, 0, 0) + 86400);
        (first, None, last)
    } else {
        let first = local_datetime(date, draft.start_hour, draft.start_minute);
        let nine = if first.is_none() {
            local_datetime(date, 9, 0)
        } else {
            None
        };
        let last = local_datetime(date, draft.end_hour, draft.end_minute);
        (first, nine, last)
    };
    assert(draft_outcomes(draft, first, nine, last));
    proof {
        let s = match first {
            Some(s) => Some(s),
            None => nine,
        };
        if let Some(s) = s {
            if !draft.all_day {
                lemma_valid_near_day(date, s as int);
                lemma_valid_between(
                    naive_timestamp(date, 0, 0) - 2 * 86400 + default_duration_minutes * 60,
                    s + default_duration_minutes * 60,
                    naive_timestamp(date, 0, 0) + 3 * 86400 + default_duration_minutes * 60,
                );
                crate::ui::editor::lemma_timestamp_bounds(s + default_duration_minutes * 60);
            }
        }
    }
    let span = saved_span_of(draft.all_day, first, nine, last, default_duration_minutes);
    let (start, end) = match span {
        Some(p) => p,
        None => {
            return Err(no_local_time());
        },
    };
    proof {
        lemma_valid_near_day(date, start as int);
        if draft.all_day {
            lemma_valid_near_day(date, end as int);
        } else if end != start {
            match last {
                Some(e) => {
                    lemma_valid_near_day(date, e as int);
                },
                None => {
                    lemma_valid_between(
                        naive_timestamp(date, 0, 0) - 2 * 86400 + default_duration_minutes * 60,
                        start + default_duration_minutes * 60,
                        naive_timestamp(date, 0, 0) + 3 * 86400 + default_duration_minutes * 60,
                    );
                },
            }
        }
    }
    let reminders = build_reminders(&draft, None, start, end, now);
    let ghost d = draft;
    let mut event = match draft.kind {
        EditorKind::New => {
            let title = if draft.title.as_str().is_empty() {
                string_of_str("New event")
            } else {
                draft.title
            };
            proof {
                lemma_valid_near_day(date, start + 3600);
            }
            CalendarEvent::new_local(calendar_id, title, start)
        },
        EditorKind::Edit(old) => {
            let mut event = *old;
            if !draft.title.as_str().is_empty() {
                event.title = draft.title;
            }
            event
        },
    };
    event.location = empty_to_none(draft.location);
    event.description = empty_to_none(draft.description);
    event.start = start;
    event.end = end;
    event.all_day = draft.all_day;
    event.dirty = true;
    event.reminders = reminders;
    Ok(event)
}

fn no_local_time() -> (e: ArgvusError)
    ensures
        e matches ArgvusError::Configuration(m) && m@ == no_local_time_message(),
{
    ArgvusError::Configuration(string_of_str("the local time does not exist on that date"))
}

} // verus!
