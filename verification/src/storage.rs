//! The rules of the event store: how instants are written and read back,
//! and which events a day, a range or a purge concerns.
use vstd::prelude::*;

use crate::calendar::date::{
    day_number_of, epoch_day_number, first_of_month, midnight_utc, next_month, next_month_spec, valid_timestamp,
    Date, MAX_YEAR,
};
use crate::calendar::event::CalendarEvent;
use crate::ical::{parse_rfc3339, rfc3339_instant};

verus! {

/// The RFC 3339 text chrono writes for a UNIX time in UTC.
pub uninterp spec fn rfc3339_text(t: i64) -> Seq<char>;

/// Whether a UNIX time falls in a year from 0 to 9999, whose number RFC
/// 3339 writes with four digits.
pub open spec fn four_digit_year(t: int) -> bool {
    day_number_of(0, 1, 1) <= epoch_day_number() + t / 86400 <= day_number_of(9999, 12, 31)
}

/// The RFC 3339 text of a UNIX time, in UTC.
///
/// Trusted: `chrono::DateTime::from_timestamp`, which gives an instant for
/// every time that `valid_timestamp` admits, and `to_rfc3339`; the text
/// depends on the time alone. For a year from 0 to 9999, which it writes
/// with four digits, `DateTime::parse_from_rfc3339` reads it back as the
/// same whole second; other years it writes with a sign and five or more
/// digits, which that parser refuses.
#[verifier::external_body]
fn format_rfc3339(t: i64) -> (r: String)
    requires
        valid_timestamp(t as int),
    ensures
        r@ == rfc3339_text(t),
        four_digit_year(t as int) ==> rfc3339_instant(r@) == Some(t),
{
    chrono::DateTime::from_timestamp(t, 0).unwrap().to_rfc3339()
}

/// How the store writes an instant; for a year from 0 to 9999
/// `parse_stored_datetime` reads the text back as the same instant.
pub fn stored_datetime(t: i64) -> (r: String)
    requires
        valid_timestamp(t as int),
    ensures
        r@ == rfc3339_text(t),
        four_digit_year(t as int) ==> rfc3339_instant(r@) == Some(t),
{
    format_rfc3339(t)
}

/// The instant a stored RFC 3339 text stands for; `None` for a text that
/// is not RFC 3339.
pub fn parse_stored_datetime(value: &str) -> (r: Option<i64>)
    ensures
        r == rfc3339_instant(value@),
        r matches Some(t) ==> valid_timestamp(t as int),
{
    parse_rfc3339(value)
}

/// The first and last second of a day in UTC.
pub fn day_window(date: Date) -> (r: (i64, i64))
    requires
        date.valid(),
    ensures
        r.0 == (date.day_number() - crate::calendar::date::epoch_day_number()) * 86400,
        r.1 == r.0 + 86399,
{
    let start = midnight_utc(date);
    proof {
        crate::ui::editor::lemma_timestamp_bounds(start as int);
    }
    (start, start + 86399)
}

/// Whether a stored event shows in the range from `start` to `end`: it is
/// not deleted and overlaps the range.
pub open spec fn in_window_spec(e: CalendarEvent, start: i64, end: i64) -> bool {
    !e.deleted && e.start <= end && e.end >= start
}

/// Whether a stored event shows in the range from `start` to `end`.
pub fn in_window(e: &CalendarEvent, start: i64, end: i64) -> (r: bool)
    ensures
        r == in_window_spec(*e, start, end),
{
    !e.deleted && e.start <= end && e.end >= start
}

/// Whether an event is under way at the instant `x`: from its start to its
/// end, both included.
pub open spec fn under_way(e: CalendarEvent, x: int) -> bool {
    e.start <= x <= e.end
}

/// A stored event shows in a range exactly when it is not deleted and it
/// is under way at some instant of the range, however long before the range
/// it began and however long after it it ends.
pub proof fn lemma_in_window_when_under_way(e: CalendarEvent, start: i64, end: i64)
    requires
        start <= end,
        e.start <= e.end,
    ensures
        in_window_spec(e, start, end) <==> (!e.deleted && exists|x: int|
            start <= x <= end && #[trigger] under_way(e, x)),
{
    if !e.deleted && e.start <= end && e.end >= start {
        let x: int = if e.start >= start {
            e.start as int
        } else {
            start as int
        };
        assert(start <= x <= end && under_way(e, x));
    }
}

/// Whether a purge of the events that ended by `cutoff` removes an event.
pub fn is_purged(e: &CalendarEvent, cutoff: i64) -> (r: bool)
    ensures
        r == (e.end <= cutoff),
{
    e.end <= cutoff
}

/// The first and last second (UTC) of the month of `month`.
pub fn month_window(month: Date) -> (r: (i64, i64))
    requires
        month.valid(),
        !(month.month == 12 && month.year == MAX_YEAR),
    ensures
        r.0 == (month.first_of_month_spec().day_number() - epoch_day_number()) * 86400,
        r.1 == (next_month_spec(month).day_number() - epoch_day_number()) * 86400 - 1,
{
    let first = first_of_month(month);
    let next = next_month(month);
    let start = midnight_utc(first);
    let end = midnight_utc(next);
    proof {
        crate::ui::editor::lemma_timestamp_bounds(end as int);
    }
    (start, end - 1)
}

} // verus!
