//! Calendars, events and reminders as stored by the popup.
use vstd::prelude::*;

use crate::calendar::date::{now_utc, valid_timestamp};
use crate::calendar::recurrence::Recurrence;
use crate::error::ArgvusError;
use crate::text::{concat, chars_of, str_eq, string_of, trim, trimmed};

verus! {

/// Where a calendar or an event comes from.
#[derive(Clone, Copy, Debug, PartialEq, Eq, Structural)]
pub enum CalendarSource {
    Local,
    CalDav,
    ImportedIcs,
}

/// The storage name of a source.
pub open spec fn source_name(s: CalendarSource) -> Seq<char> {
    match s {
        CalendarSource::Local => "local"@,
        CalendarSource::CalDav => "caldav"@,
        CalendarSource::ImportedIcs => "ics"@,
    }
}

/// The source a storage name stands for; unknown names are local.
pub open spec fn source_from_name(v: Seq<char>) -> CalendarSource {
    if v == "caldav"@ {
        CalendarSource::CalDav
    } else if v == "ics"@ {
        CalendarSource::ImportedIcs
    } else {
        CalendarSource::Local
    }
}

impl CalendarSource {
    /// The storage name of this source.
    pub fn as_str(&self) -> (r: &'static str)
        ensures
            r@ == source_name(*self),
    {
        match self {
            CalendarSource::Local => "local",
            CalendarSource::CalDav => "caldav",
            CalendarSource::ImportedIcs => "ics",
        }
    }
}

impl<'a> From<&'a str> for CalendarSource {
    fn from(value: &'a str) -> (r: CalendarSource) {
        if str_eq(value, "caldav") {
            CalendarSource::CalDav
        } else if str_eq(value, "ics") {
            CalendarSource::ImportedIcs
        } else {
            CalendarSource::Local
        }
    }
}

impl<'a> vstd::std_specs::convert::FromSpecImpl<&'a str> for CalendarSource {
    open spec fn obeys_from_spec() -> bool {
        true
    }

    open spec fn from_spec(v: &'a str) -> CalendarSource {
        source_from_name(v@)
    }
}

/// Reading back the storage name of a source gives the source.
pub proof fn lemma_source_name_round_trip(s: CalendarSource)
    ensures
        source_from_name(source_name(s)) == s,
{
    reveal_strlit("local");
    reveal_strlit("caldav");
    reveal_strlit("ics");
    assert("local"@[0] != "caldav"@[0]);
    assert("local"@.len() != "ics"@.len());
    assert("ics"@.len() != "caldav"@.len());
}

/// A calendar that events belong to.
#[derive(Clone, Debug)]
pub struct Calendar {
    pub id: i64,
    pub name: String,
    pub source: CalendarSource,
    pub remote_url: Option<String>,
    pub color: Option<String>,
    pub enabled: bool,
}

/// A notification of an event, `minutes_before` its start (negative values
/// repeat the notification during an event that is in progress).
#[derive(Clone, Copy, Debug, PartialEq, Eq, Structural)]
pub struct Reminder {
    pub id: Option<i64>,
    pub event_id: Option<i64>,
    pub minutes_before: i64,
    pub fired_at: Option<i64>,
}

/// An event; instants are UNIX times in seconds (UTC).
#[derive(Clone, Debug)]
pub struct CalendarEvent {
    pub id: Option<i64>,
    pub uid: String,
    pub calendar_id: i64,
    pub title: String,
    pub description: Option<String>,
    pub location: Option<String>,
    pub start: i64,
    pub end: i64,
    pub all_day: bool,
    pub timezone: Option<String>,
    pub recurrence: Recurrence,
    pub reminders: Vec<Reminder>,
    pub created_at: i64,
    pub updated_at: i64,
    pub source: CalendarSource,
    pub external_etag: Option<String>,
    pub remote_url: Option<String>,
    pub dirty: bool,
    pub deleted: bool,
}

/// The message for an event without a title.
pub open spec fn empty_title_message() -> Seq<char> {
    "event title cannot be empty"@
}

/// The message for an event that ends before it starts.
pub open spec fn end_before_start_message() -> Seq<char> {
    "event end must be equal to or after start"@
}

/// A random version 4 UUID in its hyphenated form.
///
/// Trusted: `uuid::Uuid::new_v4()` formatted with `Display`; the value is
/// random, and nothing is stated of it.
#[verifier::external_body]
fn new_uuid_v4() -> (r: String) {
    uuid::Uuid::new_v4().to_string()
}

/// A fresh unique id with the given suffix, such as `<uuid>@argvus-calendar`.
pub fn new_uid(suffix: &str) -> (r: String)
    ensures
        exists|u: Seq<char>| r@ == u + suffix@,
{
    let u = new_uuid_v4();
    let uv = chars_of(u.as_str());
    let sv = chars_of(suffix);
    let all = concat(uv.as_slice(), sv.as_slice());
    let r = string_of(all.as_slice());
    assert(r@ == u@ + suffix@);
    r
}

impl CalendarEvent {
    /// Whether the event passes `validate`.
    pub open spec fn is_valid(&self) -> bool {
        trim(self.title@).len() > 0 && self.start <= self.end
    }

    /// Checks that the title is not blank and that the event does not end
    /// before it starts.
    pub fn validate(&self) -> (r: Result<(), ArgvusError>)
        ensures
            trim(self.title@).len() == 0 ==> (r matches Err(ArgvusError::Configuration(m)) && m@
                == empty_title_message()),
            trim(self.title@).len() > 0 && self.end < self.start ==> (r matches Err(
                ArgvusError::Configuration(m),
            ) && m@ == end_before_start_message()),
            r is Ok <==> self.is_valid(),
    {
        let t = trimmed(self.title.as_str());
        if t.len() == 0 {
            return Err(ArgvusError::Configuration(string_of_str("event title cannot be empty")));
        }
        if self.end < self.start {
            return Err(
                ArgvusError::Configuration(
                    string_of_str("event end must be equal to or after start"),
                ),
            );
        }
        Ok(())
    }

    /// A new one-hour event in a local calendar, starting at `start`, with a
    /// reminder ten minutes before, created now.
    pub fn new_local(calendar_id: i64, title: String, start: i64) -> (e: CalendarEvent)
        requires
            valid_timestamp(start + 3600),
        ensures
            e.id is None,
            exists|u: Seq<char>| e.uid@ == u + "@argvus-calendar"@,
            e.calendar_id == calendar_id,
            e.title@ == title@,
            e.description is None,
            e.location is None,
            e.start == start,
            e.end == start + 3600,
            !e.all_day,
            (e.timezone matches Some(z) && z@ == "UTC"@),
            e.recurrence.rrule is None,
            e.recurrence.raw_properties@.len() == 0,
            e.reminders@ == seq![
                Reminder { id: None, event_id: None, minutes_before: 10, fired_at: None },
            ],
            e.created_at == e.updated_at,
            valid_timestamp(e.created_at as int),
            e.source == CalendarSource::Local,
            e.external_etag is None,
            e.remote_url is None,
            e.dirty,
            !e.deleted,
    {
        let now = now_utc();
        let mut reminders: Vec<Reminder> = Vec::new();
        reminders.push(Reminder { id: None, event_id: None, minutes_before: 10, fired_at: None });
        let uid = new_uid("@argvus-calendar");
        CalendarEvent {
            id: None,
            uid,
            calendar_id,
            title,
            description: None,
            location: None,
            start,
            end: start + 3600,
            all_day: false,
            timezone: Some(string_of_str("UTC")),
            recurrence: Recurrence::none(),
            reminders,
            created_at: now,
            updated_at: now,
            source: CalendarSource::Local,
            external_etag: None,
            remote_url: None,
            dirty: true,
            deleted: false,
        }
    }
}

/// An owned copy of a string slice.
pub fn string_of_str(s: &str) -> (r: String)
    ensures
        r@ == s@,
{
    let v = chars_of(s);
    string_of(v.as_slice())
}

/// The number of enabled calendars with a remote address.
pub open spec fn remote_count(cs: Seq<Calendar>) -> nat
    decreases cs.len(),
{
    if cs.len() == 0 {
        0
    } else {
        remote_count(cs.drop_last()) + if cs.last().enabled && cs.last().remote_url is Some {
            1nat
        } else {
            0nat
        }
    }
}

/// How many calendars synchronise with a server: the enabled ones with a
/// remote address.
pub fn remote_calendar_count(calendars: &Vec<Calendar>) -> (r: usize)
    ensures
        r == remote_count(calendars@),
{
    let mut n: usize = 0;
    let mut i: usize = 0;
    while i < calendars.len()
        invariant
            i <= calendars.len(),
            n == remote_count(calendars@.take(i as int)),
            n <= i,
        decreases calendars.len() - i,
    {
        assert(calendars@.take(i + 1).drop_last() =~= calendars@.take(i as int));
        if calendars[i].enabled && calendars[i].remote_url.is_some() {
            n = n + 1;
        }
        i = i + 1;
    }
    assert(calendars@.take(calendars.len() as int) =~= calendars@);
    n
}

} // verus!
