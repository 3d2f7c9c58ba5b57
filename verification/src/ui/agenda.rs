//! The rows of the day's agenda.
use vstd::prelude::*;

use crate::calendar::date::{epoch_day_number, local_time_in_range, Date};
use crate::calendar::event::CalendarEvent;
use crate::i18n::{text_in, I18n, Text};
use crate::reminders::clock_text;
use crate::text::{chars_of, concat, string_of, two_digit_chars};
use crate::ui::editor::{lemma_local_date_near_utc_date, local_time_of, shows_local_time, LocalTime};

verus! {

/// The time column of an agenda row: the all-day label, or the start's
/// local time of day `HH:MM`.
pub fn agenda_time(event: &CalendarEvent, i18n: I18n) -> (r: String)
    requires
        event.all_day || local_time_in_range(event.start as int),
    ensures
        event.all_day ==> r@ == text_in(i18n.language, Text::AllDay),
        !event.all_day ==> exists|at: LocalTime|
            #[trigger] shows_local_time(event.start as int, at) && r@ == clock_text(at),
{
    if event.all_day {
        let t = i18n.text(Text::AllDay);
        let v = chars_of(t);
        string_of(v.as_slice())
    } else {
        let at = local_time_of(event.start);
        let hour = two_digit_chars(at.hour);
        let minute = two_digit_chars(at.minute);
        let colon: Vec<char> = vec![':'];
        let hm = concat(hour.as_slice(), colon.as_slice());
        let clock = concat(hm.as_slice(), minute.as_slice());
        assert(clock@ =~= clock_text(at));
        string_of(clock.as_slice())
    }
}

/// The text of an agenda without events.
pub fn agenda_empty_text(i18n: I18n) -> (r: &'static str)
    ensures
        r@ == text_in(i18n.language, Text::NoEvents),
{
    i18n.text(Text::NoEvents)
}

/// The local date of an instant, in the machine's time zone: the date of
/// a local time the instant shows, within a day of its date in UTC.
pub fn local_day(t: i64) -> (r: Date)
    requires
        local_time_in_range(t as int),
    ensures
        r.valid(),
        exists|at: LocalTime| #[trigger] shows_local_time(t as int, at) && at.date == r,
        epoch_day_number() + t / 86400 - 1 <= r.day_number() <= epoch_day_number() + t / 86400
            + 1,
{
    let at = local_time_of(t);
    proof {
        lemma_local_date_near_utc_date(t as int, at);
    }
    at.date
}

} // verus!
