//! Reading events from iCalendar (`.ics`) text, and writing them back.
use vstd::prelude::*;

use icalendar::Calendar as ICalendar;

use crate::calendar::date::{
    day_number_of, epoch_day_number, midnight_utc, now_utc, timestamp_fits, valid_timestamp,
    valid_ymd, Date,
};
use crate::calendar::event::{new_uid, string_of_str, CalendarEvent, CalendarSource, Reminder};
use crate::calendar::recurrence::Recurrence;
use crate::config::themes::lex_le;
use crate::error::ArgvusError;
use crate::text::{
    all_digits, digits_value, is_digit, chars_of, concat, ends_with, parse_i64, parse_i64_spec, slice_vec, starts_with, string_of,
    str_eq, trim, trimmed, utf8_len, utf8_len_is, views,
};
use crate::ui::editor::opt_view;

verus! {

/// The values of one `VEVENT` that an import reads.
#[derive(Clone, Debug)]
pub struct IcsEvent {
    /// The value of `DTSTART`.
    pub start: Option<String>,
    /// The `VALUE` parameter of `DTSTART`.
    pub start_value_type: Option<String>,
    /// The `TZID` parameter of `DTSTART`.
    pub start_tzid: Option<String>,
    /// The value of `DTEND`.
    pub end: Option<String>,
    pub uid: Option<String>,
    pub summary: Option<String>,
    pub description: Option<String>,
    pub location: Option<String>,
    pub rrule: Option<String>,
    /// The properties that may occur more than once, by name: each
    /// occurrence as its name and value.
    pub multi_properties: Vec<(String, Vec<(String, String)>)>,
    /// The sub-components: each as its kind and the value of its `TRIGGER`.
    pub components: Vec<(String, Option<String>)>,
}

// ---------------------------------------------------------------------------
// Alarm triggers
// ---------------------------------------------------------------------------

/// `s` with every trailing `c` removed (`str::trim_end_matches`).
pub open spec fn strip_trailing(s: Seq<char>, c: char) -> Seq<char>
    decreases s.len(),
{
    if s.len() > 0 && s.last() == c {
        strip_trailing(s.drop_last(), c)
    } else {
        s
    }
}

/// `s` with every trailing `c` removed.
pub(crate) fn strip_trailing_exec(s: &[char], c: char) -> (r: Vec<char>)
    ensures
        r@ == strip_trailing(s@, c),
{
    let mut n = s.len();
    assert(s@.take(n as int) =~= s@);
    while n > 0 && s[n - 1] == c
        invariant
            n <= s.len(),
            strip_trailing(s@, c) == strip_trailing(s@.take(n as int), c),
        decreases n,
    {
        assert(s@.take(n as int).drop_last() =~= s@.take(n - 1));
        n = n - 1;
    }
    let r = slice_vec(s, 0, n);
    assert(r@ =~= s@.take(n as int));
    r
}

/// The length of the leading run of ASCII digits of `s`.
pub open spec fn digit_run(s: Seq<char>) -> nat
    decreases s.len(),
{
    if s.len() > 0 && is_digit(s[0]) {
        1 + digit_run(s.drop_first())
    } else {
        0
    }
}

/// The rank and the length in seconds of a unit of an ISO-8601 duration:
/// weeks and days before the `T`, hours, minutes and seconds after it.
pub open spec fn duration_unit(u: char, time: bool) -> Option<(int, int)> {
    if !time && u == 'W' {
        Some((0, 604800))
    } else if !time && u == 'D' {
        Some((1, 86400))
    } else if time && u == 'H' {
        Some((2, 3600))
    } else if time && u == 'M' {
        Some((3, 60))
    } else if time && u == 'S' {
        Some((4, 1))
    } else {
        None
    }
}

/// The length in seconds of the components `s` of an ISO-8601 duration
/// (what follows `P`): numbers each followed by its unit, the units in
/// order and none twice, the time units after a `T` that has at least one
/// component after it. A number must fit an `i64`. `time` tells whether the
/// `T` has been passed, `rank` the rank of the last unit read.
pub open spec fn duration_seconds(s: Seq<char>, time: bool, rank: int) -> Option<int>
    decreases s.len(),
{
    if s.len() == 0 {
        Some(0)
    } else if !time && s[0] == 'T' {
        if s.len() == 1 {
            None
        } else {
            duration_seconds(s.drop_first(), true, 1)
        }
    } else {
        let n = digit_run(s);
        if n == 0 || n >= s.len() {
            None
        } else {
            match duration_unit(s[n as int], time) {
                Some(unit) => if unit.0 > rank && digits_value(s.take(n as int)) <= i64::MAX {
                    match duration_seconds(s.skip(n + 1 as int), time, unit.0) {
                        Some(x) => Some(digits_value(s.take(n as int)) * unit.1 + x),
                        None => None,
                    }
                } else {
                    None
                },
                None => None,
            }
        }
    }
}

/// The lead time in minutes of an alarm trigger: a negative ISO-8601
/// duration (`-P` followed by its components, surrounding white space
/// ignored), in whole minutes; `None` for any other form or a lead time
/// beyond `i64`.
pub open spec fn trigger_minutes(trigger: Seq<char>) -> Option<i64> {
    let v = trim(trigger);
    if v.len() > 2 && v.take(2) == "-P"@ {
        match duration_seconds(v.skip(2), false, -1) {
            Some(x) => if x / 60 <= i64::MAX {
                Some((x / 60) as i64)
            } else {
                None
            },
            None => None,
        }
    } else {
        None
    }
}

proof fn lemma_digit_run(s: Seq<char>, k: int)
    requires
        0 <= k <= s.len(),
        all_digits(s.take(k)),
        k == s.len() || !is_digit(s[k]),
    ensures
        digit_run(s) == k,
    decreases k,
{
    if k > 0 {
        assert(is_digit(s.take(k)[0]));
        assert(s.drop_first().take(k - 1) =~= s.take(k).drop_first());
        assert(all_digits(s.drop_first().take(k - 1)));
        lemma_digit_run(s.drop_first(), k - 1);
    }
}

proof fn lemma_duration_bound(s: Seq<char>, time: bool, rank: int)
    requires
        -1 <= rank <= 4,
        !time ==> rank <= 1,
    ensures
        duration_seconds(s, time, rank) matches Some(x) ==> 0 <= x <= (4 - rank) * 604800
            * 0x7fff_ffff_ffff_ffff,
    decreases s.len(),
{
    if s.len() == 0 {
    } else if !time && s[0] == 'T' {
        if s.len() > 1 {
            lemma_duration_bound(s.drop_first(), true, 1);
            if rank >= 1 {
                assert(duration_seconds(s, time, rank) == duration_seconds(s.drop_first(), true, 1));
            }
        }
    } else {
        let n = digit_run(s);
        if n > 0 && n < s.len() {
            match duration_unit(s[n as int], time) {
                Some(unit) => {
                    if unit.0 > rank && digits_value(s.take(n as int)) <= i64::MAX {
                        lemma_duration_bound(s.skip(n + 1 as int), time, unit.0);
                        lemma_digit_run_digits(s);
                        crate::text::lemma_digits_value_nonneg(s.take(n as int));
                        let v = digits_value(s.take(n as int));
                        let secs = unit.1;
                        assert(0 <= v * secs <= 604800 * 0x7fff_ffff_ffff_ffff) by (nonlinear_arith)
                            requires
                                0 <= v <= 0x7fff_ffff_ffff_ffff,
                                1 <= secs <= 604800,
                        ;
                    }
                },
                None => {},
            }
        }
    }
}

proof fn lemma_digit_run_digits(s: Seq<char>)
    ensures
        digit_run(s) <= s.len(),
        all_digits(s.take(digit_run(s) as int)),
        digit_run(s) < s.len() ==> !is_digit(s[digit_run(s) as int]),
    decreases s.len(),
{
    if s.len() > 0 && is_digit(s[0]) {
        lemma_digit_run_digits(s.drop_first());
        let n = digit_run(s);
        assert forall|i: int| 0 <= i < n implies is_digit(#[trigger] s.take(n as int)[i]) by {
            if i > 0 {
                assert(s.take(n as int)[i] == s.drop_first().take(n - 1)[i - 1]);
            }
        }
    }
}

/// The value of a run of digits, which fits an `i64`, or `None`.
fn digits_i64(d: &[char]) -> (r: Option<i64>)
    requires
        d@.len() > 0,
        all_digits(d@),
    ensures
        r == (if digits_value(d@) <= i64::MAX {
            Some(digits_value(d@) as i64)
        } else {
            None::<i64>
        }),
{
    proof {
        crate::text::lemma_digits_value_nonneg(d@);
    }
    assert(is_digit(d@[0]));
    parse_i64(d)
}

/// The seconds of duration components (see `duration_seconds`).
fn duration_seconds_exec(s: &[char], time: bool, rank: i64) -> (r: Option<i128>)
    requires
        -1 <= rank <= 4,
        !time ==> rank <= 1,
    ensures
        r == match duration_seconds(s@, time, rank as int) {
            Some(x) => Some(x as i128),
            None => None::<i128>,
        },
    decreases s.len(),
{
    proof {
        lemma_duration_bound(s@, time, rank as int);
    }
    if s.len() == 0 {
        return Some(0);
    }
    if !time && s[0] == 'T' {
        if s.len() == 1 {
            return None;
        }
        let rest = slice_vec(s, 1, s.len());
        assert(rest@ =~= s@.drop_first());
        return duration_seconds_exec(rest.as_slice(), true, 1);
    }
    let mut n: usize = 0;
    while n < s.len() && '0' <= s[n] && s[n] <= '9'
        invariant
            n <= s.len(),
            all_digits(s@.take(n as int)),
        decreases s.len() - n,
    {
        assert(s@.take(n + 1) =~= s@.take(n as int).push(s@[n as int]));
        n = n + 1;
    }
    proof {
        lemma_digit_run(s@, n as int);
    }
    if n == 0 || n >= s.len() {
        return None;
    }
    let u = s[n];
    let (unit_rank, unit_secs): (i64, i128) = if !time && u == 'W' {
        (0, 604800)
    } else if !time && u == 'D' {
        (1, 86400)
    } else if time && u == 'H' {
        (2, 3600)
    } else if time && u == 'M' {
        (3, 60)
    } else if time && u == 'S' {
        (4, 1)
    } else {
        return None;
    };
    assert(duration_unit(s@[n as int], time) == Some((unit_rank as int, unit_secs as int)));
    if unit_rank <= rank {
        return None;
    }
    let digits = slice_vec(s, 0, n);
    assert(digits@ =~= s@.take(n as int));
    let value = match digits_i64(digits.as_slice()) {
        Some(v) => v,
        None => {
            return None;
        },
    };
    let rest = slice_vec(s, n + 1, s.len());
    assert(rest@ =~= s@.skip(n + 1));
    match duration_seconds_exec(rest.as_slice(), time, unit_rank) {
        Some(x) => {
            proof {
                lemma_duration_bound(rest@, time, unit_rank as int);
                crate::text::lemma_digits_value_nonneg(digits@);
                assert(0 <= value * unit_secs <= 604800 * 0x7fff_ffff_ffff_ffff) by (nonlinear_arith)
                    requires
                        0 <= value <= 0x7fff_ffff_ffff_ffff,
                        1 <= unit_secs <= 604800,
                ;
            }
            Some(value as i128 * unit_secs + x)
        },
        None => None,
    }
}

/// The lead time in minutes of an alarm trigger written as a negative
/// ISO-8601 duration: `-PT15M` gives 15, `-PT1H` 60, `-PT1H30M` 90, `-P1D`
/// 1440, `-P1W` 10080, `-PT1200S` 20 (seconds are rounded down to whole
/// minutes); any other form gives `None`.
pub fn trigger_to_minutes(trigger: &str) -> (r: Option<i64>)
    ensures
        r == trigger_minutes(trigger@),
{
    let v = trimmed(trigger);
    proof {
        reveal_strlit("-P");
    }
    if v.len() <= 2 || !starts_with(v.as_slice(), "-P") {
        return None;
    }
    assert(v@.take(2) =~= v@.subrange(0, 2));
    let rest = slice_vec(v.as_slice(), 2, v.len());
    assert(rest@ =~= v@.skip(2));
    match duration_seconds_exec(rest.as_slice(), false, -1) {
        Some(x) => {
            proof {
                lemma_duration_bound(rest@, false, -1);
            }
            let minutes = x / 60;
            if minutes <= 0x7fff_ffff_ffff_ffff {
                Some(minutes as i64)
            } else {
                None
            }
        },
        None => None,
    }
}

// ---------------------------------------------------------------------------
// Date and time values
// ---------------------------------------------------------------------------

/// What `chrono::NaiveDate::parse_from_str(value, format)` gives: the
/// year, month and day, or the text of its error.
pub uninterp spec fn naive_date_parse(value: Seq<char>, format: Seq<char>) -> Result<
    (i32, u32, u32),
    Seq<char>,
>;

/// What `chrono::DateTime::parse_from_rfc3339(value)` gives, as a UNIX time.
pub uninterp spec fn rfc3339_instant(value: Seq<char>) -> Option<i64>;

/// What `chrono::NaiveDateTime::parse_from_str(value, format)` gives, read
/// as UTC, as a UNIX time.
pub uninterp spec fn naive_datetime_parse(value: Seq<char>, format: Seq<char>) -> Option<i64>;

/// A date in the given format.
///
/// Trusted: `chrono::NaiveDate::parse_from_str`; its result depends on its
/// arguments alone, and a date it gives is a valid date.
#[verifier::external_body]
fn parse_naive_date(value: &str, format: &str) -> (r: Result<(i32, u32, u32), String>)
    ensures
        match r {
            Ok(t) => naive_date_parse(value@, format@) == Ok::<(i32, u32, u32), Seq<char>>(t)
                && valid_ymd(t.0 as int, t.1 as int, t.2 as int),
            Err(m) => naive_date_parse(value@, format@) == Err::<(i32, u32, u32), Seq<char>>(m@),
        },
{
    match chrono::NaiveDate::parse_from_str(value, format) {
        Ok(d) => Ok((chrono::Datelike::year(&d), chrono::Datelike::month(&d), chrono::Datelike::day(&d))),
        Err(e) => Err(e.to_string()),
    }
}

/// An RFC 3339 date and time, as a UNIX time.
///
/// Trusted: `chrono::DateTime::parse_from_rfc3339` and `timestamp`; its
/// result depends on its argument alone, and an instant it gives lies in
/// chrono's range of dates.
#[verifier::external_body]
pub(crate) fn parse_rfc3339(value: &str) -> (r: Option<i64>)
    ensures
        r == rfc3339_instant(value@),
        r matches Some(t) ==> valid_timestamp(t as int),
{
    chrono::DateTime::parse_from_rfc3339(value).ok().map(|dt| dt.timestamp())
}

/// A date and time of day in the given format, read as UTC.
///
/// Trusted: `chrono::NaiveDateTime::parse_from_str`, `and_utc` and
/// `timestamp`; its result depends on its arguments alone, and an instant
/// it gives lies in chrono's range of dates.
#[verifier::external_body]
fn parse_naive_datetime(value: &str, format: &str) -> (r: Option<i64>)
    ensures
        r == naive_datetime_parse(value@, format@),
        r matches Some(t) ==> valid_timestamp(t as int),
{
    chrono::NaiveDateTime::parse_from_str(value, format).ok().map(|dt| dt.and_utc().timestamp())
}

/// The UNIX time of midnight UTC of a date.
pub open spec fn midnight_of(y: int, m: int, d: int) -> i64 {
    ((day_number_of(y, m, d) - epoch_day_number()) * 86400) as i64
}

/// The UNIX time an iCalendar date or date-time stands for: eight bytes are
/// a date `YYYYMMDD` at midnight UTC; otherwise RFC 3339, or
/// `YYYYMMDDTHHMMSS` with an optional trailing `Z`, in UTC.
pub open spec fn ics_datetime(value: Seq<char>) -> Result<i64, Seq<char>> {
    if utf8_len(value) == 8 {
        match naive_date_parse(value, "%Y%m%d"@) {
            Ok(t) => Ok(midnight_of(t.0 as int, t.1 as int, t.2 as int)),
            Err(e) => Err("invalid date "@ + value + ": "@ + e),
        }
    } else {
        match rfc3339_instant(value) {
            Some(t) => Ok(t),
            None => match naive_datetime_parse(strip_trailing(value, 'Z'), "%Y%m%dT%H%M%S"@) {
                Some(t) => Ok(t),
                None => Err("unsupported datetime: "@ + value),
            },
        }
    }
}

fn join3(a: &str, b: &[char], c: &str) -> (r: String)
    ensures
        r@ == a@ + b@ + c@,
{
    let av = chars_of(a);
    let cv = chars_of(c);
    let ab = concat(av.as_slice(), b);
    let abc = concat(ab.as_slice(), cv.as_slice());
    string_of(abc.as_slice())
}

/// The UNIX time of an iCalendar date or date-time value; the error tells
/// which value could not be read.
pub fn parse_ics_datetime(value: &str) -> (r: Result<i64, ArgvusError>)
    ensures
        match r {
            Ok(t) => ics_datetime(value@) == Ok::<i64, Seq<char>>(t) && valid_timestamp(t as int),
            Err(e) => e matches ArgvusError::Ics(m) && ics_datetime(value@) == Err::<i64, Seq<char>>(
                m@,
            ),
        },
{
    let chars = chars_of(value);
    if utf8_len_is(chars.as_slice(), 8) {
        match parse_naive_date(value, "%Y%m%d") {
            Ok(t) => {
                let d = Date { year: t.0, month: t.1, day: t.2 };
                let midnight = midnight_utc(d);
                proof {
                    crate::ui::editor::lemma_timestamp_bounds(midnight as int);
                }
                assert(midnight == midnight_of(t.0 as int, t.1 as int, t.2 as int));
                Ok(midnight)
            },
            Err(e) => {
                let vv = chars_of(value);
                let head = join3("invalid date ", vv.as_slice(), ": ");
                let ev = chars_of(e.as_str());
                let hv = chars_of(head.as_str());
                let all = concat(hv.as_slice(), ev.as_slice());
                Err(ArgvusError::Ics(string_of(all.as_slice())))
            },
        }
    } else {
        match parse_rfc3339(value) {
            Some(t) => {
                assert(ics_datetime(value@) == Ok::<i64, Seq<char>>(t));
                Ok(t)
            },
            None => {
                let vv = chars_of(value);
                let bare = strip_trailing_exec(vv.as_slice(), 'Z');
                let bare_s = string_of(bare.as_slice());
                match parse_naive_datetime(bare_s.as_str(), "%Y%m%dT%H%M%S") {
                    Some(t) => {
                        assert(ics_datetime(value@) == Ok::<i64, Seq<char>>(t));
                        Ok(t)
                    },
                    None => {
                        let empty: Vec<char> = Vec::new();
                        let head = join3("unsupported datetime: ", vv.as_slice(), "");
                        proof {
                            reveal_strlit("");
                        }
                        assert(head@ =~= "unsupported datetime: "@ + value@);
                        Err(ArgvusError::Ics(head))
                    },
                }
            },
        }
    }
}

// ---------------------------------------------------------------------------
// Events
// ---------------------------------------------------------------------------

/// Whether `p` begins `s`.
pub open spec fn has_prefix(s: Seq<char>, p: Seq<char>) -> bool {
    p.len() <= s.len() && s.subrange(0, p.len() as int) == p
}

/// Each property occurrence written as `NAME:value`.
pub open spec fn raw_entries(ps: Seq<(String, String)>) -> Seq<Seq<char>>
    decreases ps.len(),
{
    if ps.len() == 0 {
        Seq::empty()
    } else {
        raw_entries(ps.drop_last()).push(ps.last().0@ + ":"@ + ps.last().1@)
    }
}

/// The `RDATE` and `EXDATE` occurrences of an event, in order, as
/// `NAME:value` lines.
pub open spec fn recurrence_lines(ms: Seq<(String, Vec<(String, String)>)>) -> Seq<Seq<char>>
    decreases ms.len(),
{
    if ms.len() == 0 {
        Seq::empty()
    } else {
        let k = ms.last().0@;
        recurrence_lines(ms.drop_last()) + if has_prefix(k, "RDATE"@) || has_prefix(k, "EXDATE"@) {
            raw_entries(ms.last().1@)
        } else {
            Seq::<Seq<char>>::empty()
        }
    }
}

/// The reminder an imported alarm gives.
pub open spec fn alarm_reminder(minutes_before: i64) -> Reminder {
    Reminder { id: None, event_id: None, minutes_before, fired_at: None }
}

/// The reminders of the `VALARM` components whose trigger is `-PT<n>M`.
pub open spec fn alarm_reminders(cs: Seq<(String, Option<String>)>) -> Seq<Reminder>
    decreases cs.len(),
{
    if cs.len() == 0 {
        Seq::empty()
    } else {
        let rest = alarm_reminders(cs.drop_last());
        match cs.last().1 {
            Some(t) => if cs.last().0@ == "VALARM"@ {
                match trigger_minutes(t@) {
                    Some(m) => rest.push(alarm_reminder(m)),
                    None => rest,
                }
            } else {
                rest
            },
            None => rest,
        }
    }
}

/// The error an event of an import fails with: its start, then its end,
/// cannot be read.
pub open spec fn ics_event_error(item: IcsEvent) -> Option<Seq<char>> {
    match item.start {
        None => None,
        Some(s) => match ics_datetime(s@) {
            Err(m) => Some(m),
            Ok(_) => match item.end {
                Some(e) => match ics_datetime(e@) {
                    Err(m) => Some(m),
                    Ok(_) => None,
                },
                None => None,
            },
        },
    }
}

/// The error of the first event of an import that fails.
pub open spec fn first_ics_error(items: Seq<IcsEvent>) -> Option<Seq<char>>
    decreases items.len(),
{
    if items.len() == 0 {
        None
    } else {
        match first_ics_error(items.drop_last()) {
            Some(m) => Some(m),
            None => ics_event_error(items.last()),
        }
    }
}

/// The positions of the events that have a start, in order.
pub open spec fn kept_items(items: Seq<IcsEvent>) -> Seq<int>
    decreases items.len(),
{
    if items.len() == 0 {
        Seq::empty()
    } else {
        let rest = kept_items(items.drop_last());
        if items.last().start is Some {
            rest.push(items.len() - 1)
        } else {
            rest
        }
    }
}

/// Whether `e` is the event imported from `item` into a calendar at `now`,
/// with `fallback_uid` as its id when it has none.
pub open spec fn imported_as(
    item: IcsEvent,
    calendar_id: i64,
    now: i64,
    fallback_uid: Seq<char>,
    e: CalendarEvent,
) -> bool {
    &&& item.start matches Some(s) && ics_datetime(s@) == Ok::<i64, Seq<char>>(e.start) && e.all_day
        == (match item.start_value_type {
        Some(v) => v@ == "DATE"@,
        None => utf8_len(s@) == 8,
    })
    &&& match item.end {
        Some(x) => ics_datetime(x@) == Ok::<i64, Seq<char>>(e.end),
        None => e.end == e.start + 3600,
    }
    &&& e.id is None
    &&& e.calendar_id == calendar_id
    &&& e.uid@ == (match item.uid {
        Some(u) => u@,
        None => fallback_uid,
    })
    &&& e.title@ == (match item.summary {
        Some(t) => t@,
        None => "Untitled event"@,
    })
    &&& opt_view(e.description) == opt_view(item.description)
    &&& opt_view(e.location) == opt_view(item.location)
    &&& opt_view(e.timezone) == opt_view(item.start_tzid)
    &&& opt_view(e.recurrence.rrule) == opt_view(item.rrule)
    &&& views(e.recurrence.raw_properties@) == recurrence_lines(item.multi_properties@)
    &&& e.reminders@ == alarm_reminders(item.components@)
    &&& e.created_at == now
    &&& e.updated_at == now
    &&& e.source == CalendarSource::ImportedIcs
    &&& e.external_etag is None
    &&& e.remote_url is None
    &&& !e.dirty
    &&& !e.deleted
}

fn copy_opt(o: &Option<String>) -> (r: Option<String>)
    ensures
        opt_view(r) == opt_view(*o),
{
    match o {
        Some(s) => Some(s.clone()),
        None => None,
    }
}

fn recurrence_of(ms: &Vec<(String, Vec<(String, String)>)>) -> (r: Vec<String>)
    ensures
        views(r@) == recurrence_lines(ms@),
{
    let mut r: Vec<String> = Vec::new();
    let mut i: usize = 0;
    while i < ms.len()
        invariant
            i <= ms.len(),
            views(r@) == recurrence_lines(ms@.take(i as int)),
        decreases ms.len() - i,
    {
        assert(ms@.take(i + 1).drop_last() =~= ms@.take(i as int));
        let key = chars_of(ms[i].0.as_str());
        let ps = &ms[i].1;
        if starts_with(key.as_slice(), "RDATE") || starts_with(key.as_slice(), "EXDATE") {
            let ghost before = views(r@);
            let mut j: usize = 0;
            while j < ps.len()
                invariant
                    j <= ps.len(),
                    views(r@) == before + raw_entries(ps@.take(j as int)),
                decreases ps.len() - j,
            {
                assert(ps@.take(j + 1).drop_last() =~= ps@.take(j as int));
                let k = chars_of(ps[j].0.as_str());
                let v = chars_of(ps[j].1.as_str());
                let colon: Vec<char> = vec![':'];
                let kc = concat(k.as_slice(), colon.as_slice());
                let line = concat(kc.as_slice(), v.as_slice());
                proof {
                    reveal_strlit(":");
                }
                assert(line@ =~= ps@[j as int].0@ + ":"@ + ps@[j as int].1@);
                let ghost old_r = r@;
                r.push(string_of(line.as_slice()));
                assert(views(r@) =~= views(old_r).push(line@));
                assert(before + raw_entries(ps@.take(j + 1)) =~= (before + raw_entries(
                    ps@.take(j as int),
                )).push(line@));
                j = j + 1;
            }
            assert(ps@.take(ps.len() as int) =~= ps@);
        }
        i = i + 1;
    }
    assert(ms@.take(ms.len() as int) =~= ms@);
    r
}

fn reminders_of(cs: &Vec<(String, Option<String>)>) -> (r: Vec<Reminder>)
    ensures
        r@ == alarm_reminders(cs@),
{
    let mut r: Vec<Reminder> = Vec::new();
    let mut i: usize = 0;
    while i < cs.len()
        invariant
            i <= cs.len(),
            r@ == alarm_reminders(cs@.take(i as int)),
        decreases cs.len() - i,
    {
        assert(cs@.take(i + 1).drop_last() =~= cs@.take(i as int));
        match &cs[i].1 {
            Some(t) => {
                if str_eq(cs[i].0.as_str(), "VALARM") {
                    match trigger_to_minutes(t.as_str()) {
                        Some(m) => r.push(
                            Reminder { id: None, event_id: None, minutes_before: m, fired_at: None },
                        ),
                        None => {},
                    }
                }
            },
            None => {},
        }
        i = i + 1;
    }
    assert(cs@.take(cs.len() as int) =~= cs@);
    r
}

/// The event imported from one `VEVENT`: `None` when it has no start; an
/// error when its start or end cannot be read. An event without an end
/// lasts an hour; one without a title is called `Untitled event`.
pub fn event_from_ics(item: &IcsEvent, calendar_id: i64, now: i64, fallback_uid: String) -> (r:
    Result<Option<CalendarEvent>, ArgvusError>)
    ensures
        r is Err <==> ics_event_error(*item) is Some,
        r matches Err(e) ==> e matches ArgvusError::Ics(m) && ics_event_error(*item) == Some(m@),
        r matches Ok(o) ==> (o is Some <==> item.start is Some),
        r matches Ok(Some(e)) ==> imported_as(*item, calendar_id, now, fallback_uid@, e),
{
    let start_raw = match &item.start {
        None => return Ok(None),
        Some(s) => s,
    };
    let start = match parse_ics_datetime(start_raw.as_str()) {
        Ok(t) => t,
        Err(e) => return Err(e),
    };
    proof {
        crate::ui::editor::lemma_timestamp_bounds(start as int);
    }
    let end = match &item.end {
        Some(x) => match parse_ics_datetime(x.as_str()) {
            Ok(t) => t,
            Err(e) => return Err(e),
        },
        None => start + 3600,
    };
    let all_day = match &item.start_value_type {
        Some(v) => str_eq(v.as_str(), "DATE"),
        None => {
            let sc = chars_of(start_raw.as_str());
            utf8_len_is(sc.as_slice(), 8)
        },
    };
    let uid = match &item.uid {
        Some(u) => u.clone(),
        None => fallback_uid,
    };
    let title = match &item.summary {
        Some(t) => t.clone(),
        None => string_of_str("Untitled event"),
    };
    let e = CalendarEvent {
        id: None,
        uid,
        calendar_id,
        title,
        description: copy_opt(&item.description),
        location: copy_opt(&item.location),
        start,
        end,
        all_day,
        timezone: copy_opt(&item.start_tzid),
        recurrence: Recurrence { rrule: copy_opt(&item.rrule), raw_properties: recurrence_of(&item.multi_properties) },
        reminders: reminders_of(&item.components),
        created_at: now,
        updated_at: now,
        source: CalendarSource::ImportedIcs,
        external_etag: None,
        remote_url: None,
        dirty: false,
        deleted: false,
    };
    Ok(Some(e))
}

/// Whether `r` is the outcome of importing `items` (see `events_from_ics`).
pub open spec fn import_outcome(
    r: Result<Vec<CalendarEvent>, ArgvusError>,
    items: Seq<IcsEvent>,
    calendar_id: i64,
    now: i64,
    uids: Seq<String>,
) -> bool {
    &&& uids.len() == items.len()
    &&& (r is Err <==> first_ics_error(items) is Some)
    &&& r matches Err(e) ==> e matches ArgvusError::Ics(m) && first_ics_error(items) == Some(m@)
    &&& r matches Ok(v) ==> {
        &&& v@.len() == kept_items(items).len()
        &&& forall|j: int|
            0 <= j < v@.len() ==> #[trigger] imported_as(
                items[kept_items(items)[j]],
                calendar_id,
                now,
                uids[kept_items(items)[j]]@,
                v@[j],
            )
    }
}

/// The events imported from the `VEVENT`s of a calendar, in order, skipping
/// those without a start; the error of the first event whose start or end
/// cannot be read. `fallback_uids[i]` is the id of the `i`-th event when it
/// has none.
pub fn events_from_ics(
    items: &Vec<IcsEvent>,
    calendar_id: i64,
    now: i64,
    fallback_uids: &Vec<String>,
) -> (r: Result<Vec<CalendarEvent>, ArgvusError>)
    requires
        fallback_uids@.len() == items@.len(),
    ensures
        import_outcome(r, items@, calendar_id, now, fallback_uids@),
{
    let ghost uids = fallback_uids@;
    let mut events: Vec<CalendarEvent> = Vec::new();
    let mut i: usize = 0;
    while i < items.len()
        invariant
            i <= items.len(),
            uids.len() == items@.len(),
            uids == fallback_uids@,
            first_ics_error(items@.take(i as int)) is None,
            events@.len() == kept_items(items@.take(i as int)).len(),
            forall|j: int|
                0 <= j < events@.len() ==> #[trigger] imported_as(
                    items@[kept_items(items@.take(i as int))[j]],
                    calendar_id,
                    now,
                    uids[kept_items(items@.take(i as int))[j]]@,
                    events@[j],
                ),
            forall|j: int|
                0 <= j < kept_items(items@.take(i as int)).len() ==> 0 <= #[trigger] kept_items(
                    items@.take(i as int),
                )[j] < i,
        decreases items.len() - i,
    {
        let ghost prefix = items@.take(i as int);
        let ghost next = items@.take(i + 1);
        assert(next.drop_last() =~= prefix);
        assert(next.last() == items@[i as int]);
        let uid = fallback_uids[i].clone();
        assert(uid == uids[i as int]);
        match event_from_ics(&items[i], calendar_id, now, uid) {
            Err(e) => {
                proof {
                    lemma_first_error_extends(items@, i as int);
                }
                assert(import_outcome(Err(e), items@, calendar_id, now, uids));
                return Err(e);
            },
            Ok(None) => {
                assert(kept_items(next) == kept_items(prefix));
            },
            Ok(Some(e)) => {
                assert(kept_items(next) == kept_items(prefix).push(i as int));
                events.push(e);
            },
        }
        assert(first_ics_error(next) is None);
        i = i + 1;
    }
    assert(items@.take(items.len() as int) =~= items@);
    assert(import_outcome(Ok(events), items@, calendar_id, now, uids));
    Ok(events)
}

proof fn lemma_first_error_extends(items: Seq<IcsEvent>, i: int)
    requires
        0 <= i < items.len(),
        first_ics_error(items.take(i)) is None,
        ics_event_error(items[i]) is Some,
    ensures
        first_ics_error(items) == ics_event_error(items[i]),
    decreases items.len() - i,
{
    assert(items.take(i + 1).drop_last() =~= items.take(i));
    lemma_first_error_prefix(items, i + 1);
}

proof fn lemma_first_error_prefix(items: Seq<IcsEvent>, n: int)
    requires
        0 <= n <= items.len(),
        first_ics_error(items.take(n)) is Some,
    ensures
        first_ics_error(items) == first_ics_error(items.take(n)),
    decreases items.len() - n,
{
    if n == items.len() {
        assert(items.take(n) =~= items);
    } else {
        assert(items.take(n + 1).drop_last() =~= items.take(n));
        lemma_first_error_prefix(items, n + 1);
    }
}

/// A calendar read by the iCalendar reader.
#[verifier::external_type_specification]
#[verifier::external_body]
pub struct ExIcsCalendar(ICalendar);

/// A component of a calendar read by the iCalendar reader.
#[verifier::external_type_specification]
#[verifier::external_body]
pub struct ExIcsComponent(icalendar::CalendarComponent);

/// An event read by the iCalendar reader.
#[verifier::external_type_specification]
#[verifier::external_body]
pub struct ExIcsEvent(icalendar::Event);

/// What `str::parse::<icalendar::Calendar>` makes of a text: the contents
/// of the calendar's events in order (see `event_contents`), or the text of
/// its error.
pub uninterp spec fn ics_parse(contents: Seq<char>) -> Result<
    Seq<
        (
            Map<Seq<char>, (Seq<char>, Map<Seq<char>, Seq<char>>)>,
            Seq<(Seq<char>, Seq<(Seq<char>, Seq<char>)>)>,
            Seq<(Seq<char>, Map<Seq<char>, Seq<char>>)>,
        ),
    >,
    Seq<char>,
>;

/// The events a calendar holds, in order, each as its contents (see
/// `event_contents`).
pub uninterp spec fn ics_calendar_events(calendar: ICalendar) -> Seq<
    (
        Map<Seq<char>, (Seq<char>, Map<Seq<char>, Seq<char>>)>,
        Seq<(Seq<char>, Seq<(Seq<char>, Seq<char>)>)>,
        Seq<(Seq<char>, Map<Seq<char>, Seq<char>>)>,
    ),
>;

/// What an event holds: its properties that occur once, those that may
/// occur more than once, and its sub-components.
pub open spec fn event_contents(event: icalendar::Event) -> (
    Map<Seq<char>, (Seq<char>, Map<Seq<char>, Seq<char>>)>,
    Seq<(Seq<char>, Seq<(Seq<char>, Seq<char>)>)>,
    Seq<(Seq<char>, Map<Seq<char>, Seq<char>>)>,
) {
    (ics_event_properties(event), ics_event_multi_properties(event), ics_event_components(event))
}

/// The calendar of an iCalendar text.
///
/// Trusted: `str::parse::<icalendar::Calendar>`; whether it reads the text,
/// the error it gives otherwise, and the events of the calendar it reads
/// depend on the text alone.
#[verifier::external_body]
fn parse_calendar(contents: &str) -> (r: Result<ICalendar, String>)
    ensures
        r is Ok <==> ics_parse(contents@) is Ok,
        r matches Ok(c) ==> ics_parse(contents@)->Ok_0 == ics_calendar_events(c),
        r matches Err(m) ==> ics_parse(contents@)->Err_0 == m@,
{
    contents.parse::<ICalendar>()
}

/// The `VEVENT`s of a calendar, in order.
///
/// Trusted: `icalendar::Calendar::events`, which gives the calendar's event
/// components in order, each cloned.
#[verifier::external_body]
fn calendar_events(calendar: &ICalendar) -> (r: Vec<icalendar::Event>)
    ensures
        r@.len() == ics_calendar_events(*calendar).len(),
        forall|i: int|
            0 <= i < r@.len() ==> event_contents(#[trigger] r@[i]) == ics_calendar_events(
                *calendar,
            )[i],
{
    calendar.events().cloned().collect()
}

/// The properties of an event that occur once, by name: each with its value
/// and its parameters' values by parameter name.
pub uninterp spec fn ics_event_properties(event: icalendar::Event) -> Map<
    Seq<char>,
    (Seq<char>, Map<Seq<char>, Seq<char>>),
>;

/// The properties of an event that may occur more than once, in order of
/// name: each name with its occurrences, each as its name and value.
pub uninterp spec fn ics_event_multi_properties(event: icalendar::Event) -> Seq<
    (Seq<char>, Seq<(Seq<char>, Seq<char>)>),
>;

/// The sub-components of an event, in order: each as its kind and the
/// values of its properties that occur once, by name.
pub uninterp spec fn ics_event_components(event: icalendar::Event) -> Seq<
    (Seq<char>, Map<Seq<char>, Seq<char>>),
>;

/// The value of the property `key` in `props`.
pub open spec fn property_value_of(
    props: Map<Seq<char>, (Seq<char>, Map<Seq<char>, Seq<char>>)>,
    key: Seq<char>,
) -> Option<Seq<char>> {
    if props.contains_key(key) {
        Some(props[key].0)
    } else {
        None
    }
}

/// The value of the parameter `parameter` of the property `key` in `props`.
pub open spec fn parameter_value_of(
    props: Map<Seq<char>, (Seq<char>, Map<Seq<char>, Seq<char>>)>,
    key: Seq<char>,
    parameter: Seq<char>,
) -> Option<Seq<char>> {
    if props.contains_key(key) && props[key].1.contains_key(parameter) {
        Some(props[key].1[parameter])
    } else {
        None
    }
}

/// The views of properties listed by name.
pub open spec fn multi_views(v: Seq<(String, Vec<(String, String)>)>) -> Seq<
    (Seq<char>, Seq<(Seq<char>, Seq<char>)>),
> {
    v.map_values(
        |p: (String, Vec<(String, String)>)|
            (p.0@, p.1@.map_values(|q: (String, String)| (q.0@, q.1@))),
    )
}

/// Each sub-component as its kind and the value of its property `key`.
pub open spec fn component_reads(
    comps: Seq<(Seq<char>, Map<Seq<char>, Seq<char>>)>,
    key: Seq<char>,
) -> Seq<(Seq<char>, Option<Seq<char>>)> {
    comps.map_values(
        |c: (Seq<char>, Map<Seq<char>, Seq<char>>)|
            (
                c.0,
                if c.1.contains_key(key) {
                    Some(c.1[key])
                } else {
                    None
                },
            ),
    )
}

/// The views of sub-components read as kind and optional value.
pub open spec fn component_views(v: Seq<(String, Option<String>)>) -> Seq<
    (Seq<char>, Option<Seq<char>>),
> {
    v.map_values(|c: (String, Option<String>)| (c.0@, opt_view(c.1)))
}

/// The value of a property of an event.
///
/// Trusted: `icalendar::Component::property_value`, the value of the
/// property that occurs once under `key`.
#[verifier::external_body]
fn event_property(event: &icalendar::Event, key: &str) -> (r: Option<String>)
    ensures
        opt_view(r) == property_value_of(ics_event_properties(*event), key@),
{
    icalendar::Component::property_value(event, key).map(|v| v.to_string())
}

/// The value of a parameter of a property of an event.
///
/// Trusted: `icalendar::Component::properties`, `BTreeMap::get`,
/// `icalendar::Property::params` and `icalendar::Parameter::value`: the value
/// of the parameter `parameter` of the property under `key`.
#[verifier::external_body]
fn event_property_parameter(event: &icalendar::Event, key: &str, parameter: &str) -> (r: Option<
    String,
>)
    ensures
        opt_view(r) == parameter_value_of(ics_event_properties(*event), key@, parameter@),
{
    icalendar::Component::properties(event).get(key).and_then(|p| p.params().get(parameter)).map(
        |p| p.value().to_string(),
    )
}

/// The properties of an event that may occur more than once, by name.
///
/// Trusted: `icalendar::Component::multi_properties`, each occurrence as its
/// `key` and `value`, in the order of the map.
#[verifier::external_body]
fn event_multi_properties(event: &icalendar::Event) -> (r: Vec<(String, Vec<(String, String)>)>)
    ensures
        multi_views(r@) == ics_event_multi_properties(*event),
{
    icalendar::Component::multi_properties(event).iter().map(
        |(k, ps)| (k.clone(), ps.iter().map(|p| (p.key().to_string(), p.value().to_string())).collect()),
    ).collect()
}

/// The sub-components of an event, each as its kind and the value of one
/// of its properties.
///
/// Trusted: `icalendar::Component::components`, `component_kind` and
/// `property_value`, in the order of the components.
#[verifier::external_body]
fn event_sub_components(event: &icalendar::Event, key: &str) -> (r: Vec<(String, Option<String>)>)
    ensures
        component_views(r@) == component_reads(ics_event_components(*event), key@),
{
    icalendar::Component::components(event).iter().map(
        |c| (icalendar::Component::component_kind(c), icalendar::Component::property_value(c, key).map(|v| v.to_string())),
    ).collect()
}

/// Whether `r` holds the values an import reads of an event with the
/// contents `c` (see `event_contents`).
pub open spec fn reads_contents(
    c: (
        Map<Seq<char>, (Seq<char>, Map<Seq<char>, Seq<char>>)>,
        Seq<(Seq<char>, Seq<(Seq<char>, Seq<char>)>)>,
        Seq<(Seq<char>, Map<Seq<char>, Seq<char>>)>,
    ),
    r: IcsEvent,
) -> bool {
    let props = c.0;
    &&& opt_view(r.start) == property_value_of(props, "DTSTART"@)
    &&& opt_view(r.start_value_type) == parameter_value_of(props, "DTSTART"@, "VALUE"@)
    &&& opt_view(r.start_tzid) == parameter_value_of(props, "DTSTART"@, "TZID"@)
    &&& opt_view(r.end) == property_value_of(props, "DTEND"@)
    &&& opt_view(r.uid) == property_value_of(props, "UID"@)
    &&& opt_view(r.summary) == property_value_of(props, "SUMMARY"@)
    &&& opt_view(r.description) == property_value_of(props, "DESCRIPTION"@)
    &&& opt_view(r.location) == property_value_of(props, "LOCATION"@)
    &&& opt_view(r.rrule) == property_value_of(props, "RRULE"@)
    &&& multi_views(r.multi_properties@) == c.1
    &&& component_views(r.components@) == component_reads(c.2, "TRIGGER"@)
}

/// The values of one event that an import reads.
fn read_ics_event(event: &icalendar::Event) -> (r: IcsEvent)
    ensures
        reads_contents(event_contents(*event), r),
{
    IcsEvent {
        start: event_property(event, "DTSTART"),
        start_value_type: event_property_parameter(event, "DTSTART", "VALUE"),
        start_tzid: event_property_parameter(event, "DTSTART", "TZID"),
        end: event_property(event, "DTEND"),
        uid: event_property(event, "UID"),
        summary: event_property(event, "SUMMARY"),
        description: event_property(event, "DESCRIPTION"),
        location: event_property(event, "LOCATION"),
        rrule: event_property(event, "RRULE"),
        multi_properties: event_multi_properties(event),
        components: event_sub_components(event, "TRIGGER"),
    }
}

/// The message of a text the iCalendar reader refuses.
pub open spec fn ics_refused_message(error: Seq<char>) -> Seq<char> {
    "failed to parse ICS: "@ + error
}

/// The events of an iCalendar text, imported into calendar `calendar_id`
/// (see `events_from_ics`); events without an id get a fresh one ending in
/// `@import.argvus-calendar`.
pub fn parse_ics(contents: &str, calendar_id: i64) -> (r: Result<Vec<CalendarEvent>, ArgvusError>)
    ensures
        ics_parse(contents@) matches Err(m) ==> (r matches Err(e) && e matches ArgvusError::Ics(t)
            && t@ == ics_refused_message(m)),
        ics_parse(contents@) matches Ok(events) ==> exists|
            items: Seq<IcsEvent>,
            now: i64,
            uids: Seq<String>,
        |
            #[trigger] import_outcome(r, items, calendar_id, now, uids) && items.len()
                == events.len() && (forall|k: int|
                0 <= k < items.len() ==> reads_contents(events[k], #[trigger] items[k]))
                && forall|k: int|
                0 <= k < uids.len() && #[trigger] items[k].uid is None ==> has_suffix(
                    uids[k]@,
                    "@import.argvus-calendar"@,
                ),
{
    let calendar = match parse_calendar(contents) {
        Ok(c) => c,
        Err(m) => {
            let head = chars_of("failed to parse ICS: ");
            let mv = chars_of(m.as_str());
            let all = concat(head.as_slice(), mv.as_slice());
            return Err(ArgvusError::Ics(string_of(all.as_slice())));
        },
    };
    let now = now_utc();
    let raw = calendar_events(&calendar);
    let mut items: Vec<IcsEvent> = Vec::new();
    let mut uids: Vec<String> = Vec::new();
    let mut i: usize = 0;
    while i < raw.len()
        invariant
            i <= raw.len(),
            raw@.len() == ics_calendar_events(calendar).len(),
            forall|k: int|
                0 <= k < raw@.len() ==> event_contents(#[trigger] raw@[k]) == ics_calendar_events(
                    calendar,
                )[k],
            forall|k: int|
                0 <= k < i ==> reads_contents(ics_calendar_events(calendar)[k], #[trigger] items@[k]),
            items@.len() == i,
            uids@.len() == i,
            forall|k: int|
                0 <= k < uids@.len() && #[trigger] items@[k].uid is None ==> has_suffix(
                    uids@[k]@,
                    "@import.argvus-calendar"@,
                ),
        decreases raw.len() - i,
    {
        let item = read_ics_event(&raw[i]);
        let uid = if item.uid.is_none() {
            let u = new_uid("@import.argvus-calendar");
            proof {
                let w = choose|w: Seq<char>| u@ == w + "@import.argvus-calendar"@;
                assert(u@.subrange(u@.len() - "@import.argvus-calendar"@.len(), u@.len() as int)
                    =~= "@import.argvus-calendar"@);
            }
            u
        } else {
            String::new()
        };
        let ghost item_uid_none = item.uid is None;
        let ghost before = items@;
        items.push(item);
        assert forall|k: int| 0 <= k < i + 1 implies reads_contents(
            ics_calendar_events(calendar)[k],
            #[trigger] items@[k],
        ) by {
            if k < i {
                assert(items@[k] == before[k]);
            }
        }
        uids.push(uid);
        assert(items@[i as int].uid is None == item_uid_none);
        i = i + 1;
    }
    let ghost uid_seq = uids@;
    let r = events_from_ics(&items, calendar_id, now, &uids);
    assert(import_outcome(r, items@, calendar_id, now, uid_seq));
    r
}

/// Whether `p` ends `s`.
pub open spec fn has_suffix(s: Seq<char>, p: Seq<char>) -> bool {
    p.len() <= s.len() && s.subrange(s.len() - p.len(), s.len() as int) == p
}

// ---------------------------------------------------------------------------
// Export
// ---------------------------------------------------------------------------

/// The name and value of a raw `NAME:value` line, split at its first colon.
pub open spec fn split_raw(raw: Seq<char>) -> Option<(Seq<char>, Seq<char>)> {
    if exists|i: int| 0 <= i < raw.len() && raw[i] == ':' {
        let i = choose|i: int|
            0 <= i < raw.len() && raw[i] == ':' && forall|k: int| 0 <= k < i ==> raw[k] != ':';
        Some((raw.subrange(0, i), raw.subrange(i + 1, raw.len() as int)))
    } else {
        None
    }
}

/// A raw `NAME:value` line split at its first colon (`str::split_once`).
pub fn split_raw_property(raw: &str) -> (r: Option<(String, String)>)
    ensures
        match r {
            Some((k, v)) => split_raw(raw@) == Some((k@, v@)),
            None => split_raw(raw@) is None,
        },
{
    let cs = chars_of(raw);
    let mut i: usize = 0;
    while i < cs.len()
        invariant
            i <= cs.len(),
            cs@ == raw@,
            forall|k: int| 0 <= k < i ==> cs@[k] != ':',
        decreases cs.len() - i,
    {
        if cs[i] == ':' {
            let key = slice_vec(cs.as_slice(), 0, i);
            let value = slice_vec(cs.as_slice(), i + 1, cs.len());
            proof {
                let j = choose|j: int|
                    0 <= j < raw@.len() && raw@[j] == ':' && forall|k: int| 0 <= k < j ==> raw@[k]
                        != ':';
                assert(j == i as int) by {
                    if j < i {
                    } else if j > i {
                        assert(raw@[i as int] == ':');
                    }
                }
            }
            return Some((string_of(key.as_slice()), string_of(value.as_slice())));
        }
        i = i + 1;
    }
    None
}

/// The largest lead time in minutes that an exported alarm can hold: the
/// trigger is a `chrono::TimeDelta` of at most `i64::MAX` milliseconds.
pub const MAX_ALARM_MINUTES: i64 = 153722867280912;

/// Whether an event can be written: its times are supported instants and
/// its reminders' lead times fit an alarm trigger.
pub open spec fn exportable(e: CalendarEvent) -> bool {
    &&& valid_timestamp(e.start as int)
    &&& valid_timestamp(e.end as int)
    &&& forall|k: int|
        0 <= k < e.reminders@.len() ==> -MAX_ALARM_MINUTES <= #[trigger] e.reminders@[k].minutes_before
            <= MAX_ALARM_MINUTES
}

/// The kinds of the components a calendar holds, in order.
pub uninterp spec fn ics_calendar_components(calendar: ICalendar) -> Seq<Seq<char>>;

/// Whether `block` is one component of kind `kind` as the iCalendar writer
/// frames it: a `BEGIN` line, its content, an `END` line.
pub open spec fn framed_component(block: Seq<char>, kind: Seq<char>) -> bool {
    exists|body: Seq<char>|
        block == "BEGIN:"@ + kind + "\r\n"@ + body + "END:"@ + kind + "\r\n"@
}

/// Whether `text` is a `VCALENDAR` as the iCalendar writer writes it: a
/// `BEGIN` line, the calendar's property lines, one framed block per
/// component of the kinds `kinds` in order, an `END` line.
pub open spec fn calendar_text(text: Seq<char>, kinds: Seq<Seq<char>>) -> bool {
    exists|head: Seq<char>, blocks: Seq<Seq<char>>|
        #![trigger blocks.flatten(), head.len()]
        blocks.len() == kinds.len() && (forall|i: int|
            0 <= i < blocks.len() ==> framed_component(#[trigger] blocks[i], kinds[i])) && text
            == "BEGIN:VCALENDAR\r\n"@ + head + blocks.flatten() + "END:VCALENDAR\r\n"@
}

/// The text the iCalendar writer gives one property: its content line (its
/// name, its parameters each as `name=value`, and its value, escaped as the
/// value's type asks), folded at 75 octets, with a closing CRLF.
pub uninterp spec fn ics_property_line(
    key: Seq<char>,
    value: Seq<char>,
    params: Map<Seq<char>, Seq<char>>,
) -> Seq<char>;

/// Whether `text` is the lines of the properties `props` in order of name,
/// each written as `line` writes it.
pub open spec fn property_lines(
    text: Seq<char>,
    props: Map<Seq<char>, (Seq<char>, Map<Seq<char>, Seq<char>>)>,
    line: spec_fn(Seq<char>, Seq<char>, Map<Seq<char>, Seq<char>>) -> Seq<char>,
) -> bool {
    exists|keys: Seq<Seq<char>>|
        #![trigger keys.to_set()]
        keys.to_set() == props.dom() && keys.no_duplicates() && (forall|i: int, j: int|
            0 <= i < j < keys.len() ==> lex_le(keys[i], keys[j])) && text == keys.map_values(
            |k: Seq<char>| line(k, props[k].0, props[k].1),
        ).flatten()
}

/// Whether `block` is an event with the contents `c` (see `event_contents`)
/// as the iCalendar writer writes it: `BEGIN:VEVENT`; a `DTSTAMP` line with
/// the time of writing unless the event has one; the lines of its
/// properties in order of name; a random `UID` line unless it has one; the
/// lines of its repeatable properties (none when it has none); each of its
/// sub-components framed by its kind; `END:VEVENT`. `line` writes a
/// property (`ics_property_line`).
pub open spec fn event_block(
    block: Seq<char>,
    c: (
        Map<Seq<char>, (Seq<char>, Map<Seq<char>, Seq<char>>)>,
        Seq<(Seq<char>, Seq<(Seq<char>, Seq<char>)>)>,
        Seq<(Seq<char>, Map<Seq<char>, Seq<char>>)>,
    ),
    line: spec_fn(Seq<char>, Seq<char>, Map<Seq<char>, Seq<char>>) -> Seq<char>,
) -> bool {
    exists|stamp: Seq<char>, lines: Seq<char>, uid: Seq<char>, multi: Seq<char>, subs: Seq<Seq<char>>|
        #![trigger property_lines(lines, c.0, line), subs.flatten(), stamp.len(), uid.len(), multi.len()]
        property_lines(lines, c.0, line) && (c.0.contains_key("DTSTAMP"@) ==> stamp.len() == 0) && (
        c.0.contains_key("UID"@) ==> uid.len() == 0) && (c.1.len() == 0 ==> multi.len() == 0)
            && subs.len() == c.2.len() && (forall|k: int|
            0 <= k < subs.len() ==> framed_component(#[trigger] subs[k], c.2[k].0)) && block
            == "BEGIN:VEVENT\r\n"@ + stamp + lines + uid + multi + subs.flatten()
            + "END:VEVENT\r\n"@
}

/// Whether `text` is a `VCALENDAR` whose components are the events with
/// the contents `events`, in order, each written as `event_block` says.
pub open spec fn calendar_events_text(
    text: Seq<char>,
    events: Seq<
        (
            Map<Seq<char>, (Seq<char>, Map<Seq<char>, Seq<char>>)>,
            Seq<(Seq<char>, Seq<(Seq<char>, Seq<char>)>)>,
            Seq<(Seq<char>, Map<Seq<char>, Seq<char>>)>,
        ),
    >,
    line: spec_fn(Seq<char>, Seq<char>, Map<Seq<char>, Seq<char>>) -> Seq<char>,
) -> bool {
    exists|head: Seq<char>, blocks: Seq<Seq<char>>|
        #![trigger blocks.flatten(), head.len()]
        blocks.len() == events.len() && (forall|i: int|
            0 <= i < blocks.len() ==> event_block(#[trigger] blocks[i], events[i], line)) && text
            == "BEGIN:VCALENDAR\r\n"@ + head + blocks.flatten() + "END:VCALENDAR\r\n"@
}

/// The kinds of `n` events.
pub open spec fn event_kinds(n: nat) -> Seq<Seq<char>> {
    Seq::new(n, |i: int| "VEVENT"@)
}

/// Whether an event can be written (`exportable`).
pub fn is_exportable(e: &CalendarEvent) -> (r: bool)
    ensures
        r == exportable(*e),
{
    if !timestamp_fits(e.start) || !timestamp_fits(e.end) {
        return false;
    }
    let mut k: usize = 0;
    while k < e.reminders.len()
        invariant
            k <= e.reminders.len(),
            forall|m: int|
                0 <= m < k ==> -MAX_ALARM_MINUTES <= #[trigger] e.reminders@[m].minutes_before
                    <= MAX_ALARM_MINUTES,
        decreases e.reminders.len() - k,
    {
        let m = e.reminders[k].minutes_before;
        if m < -MAX_ALARM_MINUTES || m > MAX_ALARM_MINUTES {
            return false;
        }
        k = k + 1;
    }
    true
}

/// A new calendar with a name.
///
/// Trusted: `icalendar::Calendar::new` and `name`, which set properties
/// only; the calendar holds no component.
#[verifier::external_body]
fn ics_new_calendar(name: &str) -> (r: ICalendar)
    ensures
        ics_calendar_components(r) == Seq::<Seq<char>>::empty(),
        ics_calendar_events(r).len() == 0,
{
    let mut calendar = ICalendar::new();
    calendar.name(name);
    calendar
}

/// A new event with an id, a title, a start and an end.
///
/// Trusted: `icalendar::Event::new`, `uid`, `summary`, `starts`, `ends` and
/// `done`, with the instants made by `chrono::DateTime::from_timestamp`,
/// which gives an instant for every time that `valid_timestamp` admits: the
/// event holds the properties `UID` and `SUMMARY` with the given values and
/// no parameters, `DTSTART` and `DTEND` (whose text is not stated), and
/// nothing else.
#[verifier::external_body]
fn ics_new_event(uid: &str, title: &str, start: i64, end: i64) -> (r: icalendar::Event)
    requires
        valid_timestamp(start as int),
        valid_timestamp(end as int),
    ensures
        ics_event_properties(r).dom() == Set::<Seq<char>>::empty().insert("UID"@).insert(
            "SUMMARY"@,
        ).insert("DTSTART"@).insert("DTEND"@),
        ics_event_properties(r)["UID"@] == (uid@, Map::<Seq<char>, Seq<char>>::empty()),
        ics_event_properties(r)["SUMMARY"@] == (title@, Map::<Seq<char>, Seq<char>>::empty()),
        ics_event_multi_properties(r) == Seq::<(Seq<char>, Seq<(Seq<char>, Seq<char>)>)>::empty(),
        ics_event_components(r) == Seq::<(Seq<char>, Map<Seq<char>, Seq<char>>)>::empty(),
{
    let start = chrono::DateTime::from_timestamp(start, 0).unwrap();
    let end = chrono::DateTime::from_timestamp(end, 0).unwrap();
    icalendar::EventLike::ends(icalendar::EventLike::starts(
        icalendar::Component::summary(icalendar::Component::uid(&mut icalendar::Event::new(), uid), title),
        start,
    ), end).done()
}

/// Sets the description of an event.
///
/// Trusted: `icalendar::Component::description`, which stores `DESCRIPTION` with the value and no
/// parameters, replacing an earlier one; nothing else changes.
#[verifier::external_body]
fn ics_set_description(event: &mut icalendar::Event, value: &str)
    ensures
        ics_event_properties(*final(event)) == ics_event_properties(*old(event)).insert(
            "DESCRIPTION"@,
            (value@, Map::<Seq<char>, Seq<char>>::empty()),
        ),
        ics_event_multi_properties(*final(event)) == ics_event_multi_properties(*old(event)),
        ics_event_components(*final(event)) == ics_event_components(*old(event)),
{
    icalendar::Component::description(event, value);
}

/// Sets the location of an event.
///
/// Trusted: `icalendar::EventLike::location`, which stores `LOCATION` with the value and no
/// parameters, replacing an earlier one; nothing else changes.
#[verifier::external_body]
fn ics_set_location(event: &mut icalendar::Event, value: &str)
    ensures
        ics_event_properties(*final(event)) == ics_event_properties(*old(event)).insert(
            "LOCATION"@,
            (value@, Map::<Seq<char>, Seq<char>>::empty()),
        ),
        ics_event_multi_properties(*final(event)) == ics_event_multi_properties(*old(event)),
        ics_event_components(*final(event)) == ics_event_components(*old(event)),
{
    icalendar::EventLike::location(event, value);
}

/// Appends a property to an event.
///
/// Trusted: `icalendar::Component::append_property` of
/// `icalendar::Property::new`, which stores the property under `key` with
/// the value and no parameters, replacing an earlier one; nothing else
/// changes.
#[verifier::external_body]
fn ics_append_property(event: &mut icalendar::Event, key: &str, value: &str)
    ensures
        ics_event_properties(*final(event)) == ics_event_properties(*old(event)).insert(
            key@,
            (value@, Map::<Seq<char>, Seq<char>>::empty()),
        ),
        ics_event_multi_properties(*final(event)) == ics_event_multi_properties(*old(event)),
        ics_event_components(*final(event)) == ics_event_components(*old(event)),
{
    icalendar::Component::append_property(event, icalendar::Property::new(key, value));
}

/// Appends a display alarm to an event, `minutes_after` minutes after its
/// start (negative before it).
///
/// Trusted: `icalendar::Alarm::display` with `chrono::TimeDelta::minutes`,
/// which holds every value within `MAX_ALARM_MINUTES` of zero, and
/// `icalendar::Component::append_component`: a `VALARM` with the
/// properties `ACTION` (`DISPLAY`), `TRIGGER` (whose text is not stated) and
/// `DESCRIPTION` (the title) is added after the event's other components.
#[verifier::external_body]
fn ics_append_alarm(event: &mut icalendar::Event, title: &str, minutes_after: i64)
    requires
        -MAX_ALARM_MINUTES <= minutes_after <= MAX_ALARM_MINUTES,
    ensures
        ics_event_properties(*final(event)) == ics_event_properties(*old(event)),
        ics_event_multi_properties(*final(event)) == ics_event_multi_properties(*old(event)),
        ics_event_components(*final(event)).len() == ics_event_components(*old(event)).len() + 1,
        ics_event_components(*final(event)).drop_last() == ics_event_components(*old(event)),
        ics_event_components(*final(event)).last().0 == "VALARM"@,
        ics_event_components(*final(event)).last().1.dom() == Set::<Seq<char>>::empty().insert(
            "ACTION"@,
        ).insert("TRIGGER"@).insert("DESCRIPTION"@),
        ics_event_components(*final(event)).last().1["ACTION"@] == "DISPLAY"@,
        ics_event_components(*final(event)).last().1["DESCRIPTION"@] == title@,
{
    let alarm = icalendar::Alarm::display(title, chrono::TimeDelta::minutes(minutes_after));
    icalendar::Component::append_component(event, alarm);
}

/// Adds an event to a calendar.
///
/// Trusted: `icalendar::Calendar::push`, which adds the event after the
/// calendar's other components.
#[verifier::external_body]
fn ics_push_event(calendar: &mut ICalendar, event: icalendar::Event)
    ensures
        ics_calendar_components(*final(calendar)) == ics_calendar_components(*old(calendar)).push(
            "VEVENT"@,
        ),
        ics_calendar_events(*final(calendar)) == ics_calendar_events(*old(calendar)).push(
            event_contents(event),
        ),
{
    calendar.push(event);
}

/// The iCalendar text of a calendar.
///
/// Trusted: `icalendar::Calendar::done` and `Display`, which move the
/// calendar's contents out and write `BEGIN:VCALENDAR`, the property lines,
/// each component framed by its `BEGIN` and `END` lines, and
/// `END:VCALENDAR`. When every component is an event, each event's block is
/// written as `event_block` says (`Component::fmt_write`), the writer adding
/// the time of writing to an event without a `DTSTAMP` and a random id to
/// one without a `UID`; what those two lines and the blocks of
/// sub-components hold is not stated.
#[verifier::external_body]
fn ics_render(calendar: &mut ICalendar) -> (r: String)
    ensures
        calendar_text(r@, ics_calendar_components(*old(calendar))),
        ics_calendar_components(*old(calendar)).len() == ics_calendar_events(*old(calendar)).len()
            ==> calendar_events_text(
            r@,
            ics_calendar_events(*old(calendar)),
            |k: Seq<char>, v: Seq<char>, p: Map<Seq<char>, Seq<char>>| ics_property_line(k, v, p),
        ),
        ics_calendar_components(*final(calendar)) == Seq::<Seq<char>>::empty(),
{
    calendar.done().to_string()
}

/// What an exported event holds: its id, title, times, description and
/// location, its extra properties in order, and one display alarm per
/// reminder, given as minutes after the start.
pub struct IcsExport {
    pub uid: String,
    pub title: String,
    pub start: i64,
    pub end: i64,
    pub description: Option<String>,
    pub location: Option<String>,
    pub properties: Vec<(String, String)>,
    pub alarms_after: Vec<i64>,
}

/// The raw recurrence lines that hold a colon, split at it.
pub open spec fn raw_split(lines: Seq<String>) -> Seq<(Seq<char>, Seq<char>)>
    decreases lines.len(),
{
    if lines.len() == 0 {
        Seq::empty()
    } else {
        let rest = raw_split(lines.drop_last());
        match split_raw(lines.last()@) {
            Some(kv) => rest.push(kv),
            None => rest,
        }
    }
}

/// The extra properties of an exported event: its recurrence rule, then its
/// raw recurrence lines.
pub open spec fn export_properties(e: CalendarEvent) -> Seq<(Seq<char>, Seq<char>)> {
    (match e.recurrence.rrule {
        Some(r) => seq![("RRULE"@, r@)],
        None => Seq::empty(),
    }) + raw_split(e.recurrence.raw_properties@)
}

/// The views of a list of name and value pairs.
pub open spec fn pair_views(v: Seq<(String, String)>) -> Seq<(Seq<char>, Seq<char>)> {
    v.map_values(|p: (String, String)| (p.0@, p.1@))
}

/// Whether `x` is what `e` exports.
pub open spec fn exports_as(e: CalendarEvent, x: IcsExport) -> bool {
    &&& x.uid@ == e.uid@
    &&& x.title@ == e.title@
    &&& x.start == e.start
    &&& x.end == e.end
    &&& opt_view(x.description) == opt_view(e.description)
    &&& opt_view(x.location) == opt_view(e.location)
    &&& pair_views(x.properties@) == export_properties(e)
    &&& x.alarms_after@.len() == e.reminders@.len()
    &&& forall|k: int|
        0 <= k < e.reminders@.len() ==> #[trigger] x.alarms_after@[k] == -e.reminders@[k].minutes_before
}

/// What an event exports.
pub fn export_item(e: &CalendarEvent) -> (x: IcsExport)
    requires
        exportable(*e),
    ensures
        exports_as(*e, x),
{
    let mut properties: Vec<(String, String)> = Vec::new();
    match &e.recurrence.rrule {
        Some(rule) => {
            properties.push((string_of_str("RRULE"), rule.clone()));
        },
        None => {},
    }
    let ghost head = pair_views(properties@);
    assert(head =~= match e.recurrence.rrule {
        Some(r) => seq![("RRULE"@, r@)],
        None => Seq::<(Seq<char>, Seq<char>)>::empty(),
    });
    let lines = &e.recurrence.raw_properties;
    let mut j: usize = 0;
    while j < lines.len()
        invariant
            j <= lines.len(),
            pair_views(properties@) == head + raw_split(lines@.take(j as int)),
        decreases lines.len() - j,
    {
        assert(lines@.take(j + 1).drop_last() =~= lines@.take(j as int));
        match split_raw_property(lines[j].as_str()) {
            Some(kv) => {
                let ghost before = pair_views(properties@);
                properties.push(kv);
                assert(pair_views(properties@) =~= before.push((kv.0@, kv.1@)));
            },
            None => {},
        }
        j = j + 1;
    }
    assert(lines@.take(lines.len() as int) =~= lines@);
    let mut alarms: Vec<i64> = Vec::new();
    let mut k: usize = 0;
    while k < e.reminders.len()
        invariant
            k <= e.reminders.len(),
            exportable(*e),
            alarms@.len() == k,
            forall|m: int| 0 <= m < k ==> #[trigger] alarms@[m] == -e.reminders@[m].minutes_before,
        decreases e.reminders.len() - k,
    {
        assert(-MAX_ALARM_MINUTES <= e.reminders@[k as int].minutes_before <= MAX_ALARM_MINUTES);
        alarms.push(-e.reminders[k].minutes_before);
        k = k + 1;
    }
    IcsExport {
        uid: e.uid.clone(),
        title: e.title.clone(),
        start: e.start,
        end: e.end,
        description: copy_opt(&e.description),
        location: copy_opt(&e.location),
        properties,
        alarms_after: alarms,
    }
}

/// What a list of events exports, in order.
pub fn export_items(events: &Vec<CalendarEvent>) -> (r: Vec<IcsExport>)
    requires
        forall|i: int| 0 <= i < events@.len() ==> exportable(#[trigger] events@[i]),
    ensures
        r@.len() == events@.len(),
        forall|i: int| 0 <= i < events@.len() ==> exports_as(events@[i], #[trigger] r@[i]),
{
    let mut r: Vec<IcsExport> = Vec::new();
    let mut i: usize = 0;
    while i < events.len()
        invariant
            i <= events.len(),
            r@.len() == i,
            forall|k: int| 0 <= k < events@.len() ==> exportable(#[trigger] events@[k]),
            forall|k: int| 0 <= k < i ==> exports_as(events@[k], #[trigger] r@[k]),
        decreases events.len() - i,
    {
        assert(exportable(events@[i as int]));
        r.push(export_item(&events[i]));
        i = i + 1;
    }
    r
}

/// `m` with the properties `ps` stored in order, each with its value and
/// no parameters, a later one replacing an earlier one of the same name.
pub open spec fn insert_all(m: Map<Seq<char>, (Seq<char>, Map<Seq<char>, Seq<char>>)>, ps: Seq<(Seq<char>, Seq<char>)>) -> Map<Seq<char>, (Seq<char>, Map<Seq<char>, Seq<char>>)>
    decreases ps.len(),
{
    if ps.len() == 0 {
        m
    } else {
        insert_all(m, ps.drop_last()).insert(ps.last().0, (ps.last().1, Map::empty()))
    }
}

/// The properties an exported event is written with, given the values
/// (with parameters) of its `DTSTART` and `DTEND`: `UID`, `SUMMARY`,
/// `DTSTART`, `DTEND`, then `DESCRIPTION` and `LOCATION` when it has them,
/// then its extra properties in order.
pub open spec fn export_props(
    x: IcsExport,
    start: (Seq<char>, Map<Seq<char>, Seq<char>>),
    end: (Seq<char>, Map<Seq<char>, Seq<char>>),
) -> Map<Seq<char>, (Seq<char>, Map<Seq<char>, Seq<char>>)> {
    let base = Map::<Seq<char>, (Seq<char>, Map<Seq<char>, Seq<char>>)>::empty().insert(
        "UID"@,
        (x.uid@, Map::empty()),
    ).insert("SUMMARY"@, (x.title@, Map::empty())).insert("DTSTART"@, start).insert(
        "DTEND"@,
        end,
    );
    let described = match x.description {
        Some(d) => base.insert("DESCRIPTION"@, (d@, Map::empty())),
        None => base,
    };
    let located = match x.location {
        Some(l) => described.insert("LOCATION"@, (l@, Map::empty())),
        None => described,
    };
    insert_all(located, pair_views(x.properties@))
}

/// Whether `c` is what the event written for `x` holds: the properties of
/// `export_props` (whatever the text of its start and end), no repeatable
/// property, and one display alarm with its title per alarm of `x`.
pub open spec fn exported_contents(x: IcsExport, c: (
        Map<Seq<char>, (Seq<char>, Map<Seq<char>, Seq<char>>)>,
        Seq<(Seq<char>, Seq<(Seq<char>, Seq<char>)>)>,
        Seq<(Seq<char>, Map<Seq<char>, Seq<char>>)>,
    )) -> bool {
    &&& exists|start: (Seq<char>, Map<Seq<char>, Seq<char>>), end: (Seq<char>, Map<Seq<char>, Seq<char>>)|
        #[trigger] export_props(x, start, end) == c.0
    &&& c.1.len() == 0
    &&& c.2.len() == x.alarms_after@.len()
    &&& forall|k: int|
        0 <= k < c.2.len() ==> (#[trigger] c.2[k]).0 == "VALARM"@ && c.2[k].1["ACTION"@]
            == "DISPLAY"@ && c.2[k].1["DESCRIPTION"@] == x.title@
}

/// Whether `text` is a `VCALENDAR` holding, in order, the events written
/// for `items` (see `exported_contents` and `calendar_events_text`).
pub open spec fn export_text(
    text: Seq<char>,
    items: Seq<IcsExport>,
    line: spec_fn(Seq<char>, Seq<char>, Map<Seq<char>, Seq<char>>) -> Seq<char>,
) -> bool {
    exists|events: Seq<(
        Map<Seq<char>, (Seq<char>, Map<Seq<char>, Seq<char>>)>,
        Seq<(Seq<char>, Seq<(Seq<char>, Seq<char>)>)>,
        Seq<(Seq<char>, Map<Seq<char>, Seq<char>>)>,
    )>|
        #[trigger] calendar_events_text(text, events, line) && events.len() == items.len() && forall|
            i: int,
        | 0 <= i < items.len() ==> exported_contents(items[i], #[trigger] events[i])
}

/// Whether an exported event's values fit the iCalendar writer.
pub open spec fn renderable(x: IcsExport) -> bool {
    &&& valid_timestamp(x.start as int)
    &&& valid_timestamp(x.end as int)
    &&& forall|k: int|
        0 <= k < x.alarms_after@.len() ==> -MAX_ALARM_MINUTES <= #[trigger] x.alarms_after@[k]
            <= MAX_ALARM_MINUTES
}

/// The iCalendar text of exported events, in a calendar named `Argvus
/// Calendar`: each event with its id, title, start, end, description and
/// location when it has them, its extra properties and its alarms: a
/// `VCALENDAR` with one `VEVENT` block per item, in order, each holding the
/// lines of the item's properties (`export_text`).
pub fn render_ics(items: &Vec<IcsExport>) -> (r: String)
    requires
        forall|i: int| 0 <= i < items@.len() ==> renderable(#[trigger] items@[i]),
    ensures
        calendar_text(r@, event_kinds(items@.len())),
        export_text(
            r@,
            items@,
            |k: Seq<char>, v: Seq<char>, p: Map<Seq<char>, Seq<char>>| ics_property_line(k, v, p),
        ),
{
    proof {
        reveal_strlit("UID");
        reveal_strlit("SUMMARY");
        reveal_strlit("DTSTART");
        reveal_strlit("DTEND");
        reveal_strlit("DESCRIPTION");
        reveal_strlit("LOCATION");
    }
    let mut calendar = ics_new_calendar("Argvus Calendar");
    let mut i: usize = 0;
    while i < items.len()
        invariant
            i <= items.len(),
            forall|k: int| 0 <= k < items@.len() ==> renderable(#[trigger] items@[k]),
            ics_calendar_components(calendar) == event_kinds(i as nat),
            ics_calendar_events(calendar).len() == i,
            forall|k: int|
                0 <= k < i ==> exported_contents(
                    items@[k],
                    #[trigger] ics_calendar_events(calendar)[k],
                ),
        decreases items.len() - i,
    {
        let item = &items[i];
        assert(renderable(items@[i as int]));
        let mut event = ics_new_event(item.uid.as_str(), item.title.as_str(), item.start, item.end);
        let ghost p0 = ics_event_properties(event);
        let ghost sv = p0["DTSTART"@];
        let ghost ev = p0["DTEND"@];
        let ghost base = Map::<Seq<char>, (Seq<char>, Map<Seq<char>, Seq<char>>)>::empty().insert(
            "UID"@,
            (item.uid@, Map::empty()),
        ).insert("SUMMARY"@, (item.title@, Map::empty())).insert("DTSTART"@, sv).insert(
            "DTEND"@,
            ev,
        );
        assert(p0 =~= base);
        match &item.description {
            Some(d) => ics_set_description(&mut event, d.as_str()),
            None => {},
        }
        match &item.location {
            Some(l) => ics_set_location(&mut event, l.as_str()),
            None => {},
        }
        let ghost located = ics_event_properties(event);
        let ghost pv = pair_views(item.properties@);
        let mut j: usize = 0;
        assert(pv.take(0) =~= Seq::<(Seq<char>, Seq<char>)>::empty());
        while j < item.properties.len()
            invariant
                j <= item.properties.len(),
                pv == pair_views(item.properties@),
                ics_event_properties(event) == insert_all(located, pv.take(j as int)),
                ics_event_multi_properties(event).len() == 0,
                ics_event_components(event).len() == 0,
            decreases item.properties.len() - j,
        {
            ics_append_property(&mut event, item.properties[j].0.as_str(), item.properties[j].1.as_str());
            assert(pv.take(j + 1).drop_last() =~= pv.take(j as int));
            j = j + 1;
        }
        assert(pv.take(item.properties@.len() as int) =~= pv);
        let ghost props = ics_event_properties(event);
        assert(props == export_props(*item, sv, ev));
        let mut k: usize = 0;
        while k < item.alarms_after.len()
            invariant
                k <= item.alarms_after.len(),
                renderable(*item),
                ics_event_properties(event) == props,
                ics_event_multi_properties(event).len() == 0,
                ics_event_components(event).len() == k,
                forall|m: int|
                    0 <= m < k ==> (#[trigger] ics_event_components(event)[m]).0 == "VALARM"@
                        && ics_event_components(event)[m].1["ACTION"@] == "DISPLAY"@
                        && ics_event_components(event)[m].1["DESCRIPTION"@] == item.title@,
            decreases item.alarms_after.len() - k,
        {
            assert(-MAX_ALARM_MINUTES <= item.alarms_after@[k as int] <= MAX_ALARM_MINUTES);
            let ghost before = ics_event_components(event);
            ics_append_alarm(&mut event, item.title.as_str(), item.alarms_after[k]);
            assert forall|m: int| 0 <= m < k + 1 implies (#[trigger] ics_event_components(
                event,
            )[m]).0 == "VALARM"@ && ics_event_components(event)[m].1["ACTION"@] == "DISPLAY"@
                && ics_event_components(event)[m].1["DESCRIPTION"@] == item.title@ by {
                if m < k {
                    assert(ics_event_components(event)[m] == ics_event_components(event).drop_last()[m]);
                }
            }
            k = k + 1;
        }
        assert(exported_contents(*item, event_contents(event)));
        let ghost events_before = ics_calendar_events(calendar);
        ics_push_event(&mut calendar, event);
        assert(event_kinds(i as nat).push("VEVENT"@) =~= event_kinds((i + 1) as nat));
        assert forall|m: int| 0 <= m < i + 1 implies exported_contents(
            items@[m],
            #[trigger] ics_calendar_events(calendar)[m],
        ) by {
            if m < i {
                assert(ics_calendar_events(calendar)[m] == events_before[m]);
            }
        }
        i = i + 1;
    }
    let ghost events = ics_calendar_events(calendar);
    let r = ics_render(&mut calendar);
    assert(calendar_events_text(
        r@,
        events,
        |k: Seq<char>, v: Seq<char>, p: Map<Seq<char>, Seq<char>>| ics_property_line(k, v, p),
    ));
    r
}

/// The iCalendar text of a list of events: `render_ics` of what they
/// export (`export_items`): a `VCALENDAR` with one `VEVENT` block per
/// event, in order, holding the lines of its exported properties and one
/// alarm per reminder.
pub fn export_ics(events: &Vec<CalendarEvent>) -> (r: String)
    requires
        forall|i: int| 0 <= i < events@.len() ==> exportable(#[trigger] events@[i]),
    ensures
        calendar_text(r@, event_kinds(events@.len())),
        exists|xs: Seq<IcsExport>|
            #![trigger xs.len()]
            export_text(
                r@,
                xs,
                |k: Seq<char>, v: Seq<char>, p: Map<Seq<char>, Seq<char>>| ics_property_line(k, v, p),
            ) && xs.len() == events@.len() && forall|i: int|
                0 <= i < xs.len() ==> exports_as(events@[i], #[trigger] xs[i]),
{
    let items = export_items(events);
    assert forall|i: int| 0 <= i < items@.len() implies renderable(#[trigger] items@[i]) by {
        assert(exports_as(events@[i], items@[i]));
        assert(exportable(events@[i]));
        assert forall|k: int| 0 <= k < items@[i].alarms_after@.len() implies -MAX_ALARM_MINUTES
            <= #[trigger] items@[i].alarms_after@[k] <= MAX_ALARM_MINUTES by {
            assert(-MAX_ALARM_MINUTES <= events@[i].reminders@[k].minutes_before
                <= MAX_ALARM_MINUTES);
        }
    }
    render_ics(&items)
}

} // verus!
