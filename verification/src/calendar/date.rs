//! Calendar dates as plain year/month/day values, with the month and year
//! navigation and the 6x7 month grid shown by the popup.
use vstd::prelude::*;

verus! {

/// The earliest year a date can have.
pub const MIN_YEAR: i32 = -262143;

/// The latest year a date can have.
pub const MAX_YEAR: i32 = 262142;

/// A day of the proleptic Gregorian calendar.
#[derive(Clone, Copy, Debug, PartialEq, Eq, Hash, PartialOrd, Ord, Structural)]
pub struct Date {
    pub year: i32,
    pub month: u32,
    pub day: u32,
}

/// Whether `y` is a leap year of the Gregorian calendar.
pub open spec fn is_leap(y: int) -> bool {
    y % 4 == 0 && (y % 100 != 0 || y % 400 == 0)
}

/// The number of days of month `m` in year `y`.
pub open spec fn days_in_month(y: int, m: int) -> int {
    if m == 2 {
        if is_leap(y) {
            29
        } else {
            28
        }
    } else if m == 4 || m == 6 || m == 9 || m == 11 {
        30
    } else {
        31
    }
}

/// Whether year, month and day name a day that a `Date` can hold.
pub open spec fn valid_ymd(y: int, m: int, d: int) -> bool {
    MIN_YEAR <= y <= MAX_YEAR && 1 <= m <= 12 && 1 <= d <= days_in_month(y, m)
}

/// The number of days in year `y` before the first of month `m`.
pub open spec fn days_before_month(y: int, m: int) -> int {
    let base: int = if m == 1 {
        0
    } else if m == 2 {
        31
    } else if m == 3 {
        59
    } else if m == 4 {
        90
    } else if m == 5 {
        120
    } else if m == 6 {
        151
    } else if m == 7 {
        181
    } else if m == 8 {
        212
    } else if m == 9 {
        243
    } else if m == 10 {
        273
    } else if m == 11 {
        304
    } else {
        334
    };
    if m > 2 && is_leap(y) {
        base + 1
    } else {
        base
    }
}

/// The day number of a date: January 1 of year 1 is day 1, and consecutive
/// days have consecutive numbers.
pub open spec fn day_number_of(y: int, m: int, d: int) -> int {
    365 * (y - 1) + (y - 1) / 4 - (y - 1) / 100 + (y - 1) / 400 + days_before_month(y, m) + d
}

/// The day number of the earliest date.
pub open spec fn min_day_number() -> int {
    day_number_of(MIN_YEAR as int, 1, 1)
}

/// The day number of the latest date.
pub open spec fn max_day_number() -> int {
    day_number_of(MAX_YEAR as int, 12, 31)
}

impl Date {
    /// Whether this is a day of the calendar.
    pub open spec fn valid(self) -> bool {
        valid_ymd(self.year as int, self.month as int, self.day as int)
    }

    /// The day number of this date.
    pub open spec fn day_number(self) -> int {
        day_number_of(self.year as int, self.month as int, self.day as int)
    }

    /// The first day of this date's month.
    pub open spec fn first_of_month_spec(self) -> Date {
        Date { year: self.year, month: self.month, day: 1 }
    }

    /// Days from Monday of this date's weekday (Monday 0, Sunday 6).
    pub open spec fn days_from_monday(self) -> int {
        (self.day_number() - 1) % 7
    }

    /// Days from Sunday of this date's weekday (Sunday 0, Saturday 6).
    pub open spec fn days_from_sunday(self) -> int {
        self.day_number() % 7
    }

    /// The valid date with year, month and day, when there is one
    /// (`NaiveDate::from_ymd_opt`).
    pub fn from_ymd_opt(year: i32, month: u32, day: u32) -> (r: Option<Date>)
        ensures
            r == (if valid_ymd(year as int, month as int, day as int) {
                Some(Date { year, month, day })
            } else {
                None
            }),
    {
        if ymd_is_valid(year, month, day) {
            Some(Date { year, month, day })
        } else {
            None
        }
    }

    /// Whether `self` comes strictly before `other`.
    pub fn is_before(&self, other: &Date) -> (r: bool)
        ensures
            r == date_before(*self, *other),
    {
        self.year < other.year || (self.year == other.year && (self.month < other.month || (
        self.month == other.month && self.day < other.day)))
    }
}

/// Whether `a` comes strictly before `b` in year, month, day order.
pub open spec fn date_before(a: Date, b: Date) -> bool {
    a.year < b.year || (a.year == b.year && (a.month < b.month || (a.month == b.month && a.day
        < b.day)))
}

/// A day of the week.
#[derive(Clone, Copy, Debug, PartialEq, Eq, Structural)]
pub enum Weekday {
    Mon,
    Tue,
    Wed,
    Thu,
    Fri,
    Sat,
    Sun,
}

impl Weekday {
    /// Days from Monday (Monday 0, Sunday 6).
    pub open spec fn index_from_monday(self) -> int {
        match self {
            Weekday::Mon => 0,
            Weekday::Tue => 1,
            Weekday::Wed => 2,
            Weekday::Thu => 3,
            Weekday::Fri => 4,
            Weekday::Sat => 5,
            Weekday::Sun => 6,
        }
    }

    /// Days from Monday (`Weekday::num_days_from_monday`).
    pub fn num_days_from_monday(self) -> (r: u32)
        ensures
            r == self.index_from_monday(),
    {
        match self {
            Weekday::Mon => 0,
            Weekday::Tue => 1,
            Weekday::Wed => 2,
            Weekday::Thu => 3,
            Weekday::Fri => 4,
            Weekday::Sat => 5,
            Weekday::Sun => 6,
        }
    }

    /// Days from Sunday (`Weekday::num_days_from_sunday`).
    pub fn num_days_from_sunday(self) -> (r: u32)
        ensures
            r == (self.index_from_monday() + 1) % 7,
    {
        match self {
            Weekday::Mon => 1,
            Weekday::Tue => 2,
            Weekday::Wed => 3,
            Weekday::Thu => 4,
            Weekday::Fri => 5,
            Weekday::Sat => 6,
            Weekday::Sun => 0,
        }
    }
}

/// Whether chrono accepts year, month and day as a date.
///
/// Trusted: `chrono::NaiveDate::from_ymd_opt` gives a date exactly for the
/// days of the proleptic Gregorian calendar in years `MIN_YEAR..=MAX_YEAR`.
#[verifier::external_body]
fn ymd_is_valid(year: i32, month: u32, day: u32) -> (r: bool)
    ensures
        r == valid_ymd(year as int, month as int, day as int),
{
    chrono::NaiveDate::from_ymd_opt(year, month, day).is_some()
}

/// The weekday of a date.
///
/// Trusted: `chrono::Datelike::weekday` of the `NaiveDate` for `date`; in the
/// proleptic Gregorian calendar day 1 (January 1 of year 1) is a Monday, so
/// the weekday follows the day number modulo 7.
#[verifier::external_body]
fn weekday_of(date: Date) -> (w: Weekday)
    requires
        date.valid(),
    ensures
        w.index_from_monday() == date.days_from_monday(),
{
    let d = chrono::NaiveDate::from_ymd_opt(date.year, date.month, date.day).unwrap();
    match chrono::Datelike::weekday(&d) {
        chrono::Weekday::Mon => Weekday::Mon,
        chrono::Weekday::Tue => Weekday::Tue,
        chrono::Weekday::Wed => Weekday::Wed,
        chrono::Weekday::Thu => Weekday::Thu,
        chrono::Weekday::Fri => Weekday::Fri,
        chrono::Weekday::Sat => Weekday::Sat,
        chrono::Weekday::Sun => Weekday::Sun,
    }
}

/// The date `days` days after `date`.
///
/// Trusted: `chrono::NaiveDate::checked_add_days` gives the date whose day
/// number is `days` more, and `None` exactly when that day lies outside
/// the supported range.
#[verifier::external_body]
fn add_days(date: Date, days: u64) -> (r: Option<Date>)
    requires
        date.valid(),
    ensures
        match r {
            Some(x) => x.valid() && x.day_number() == date.day_number() + days,
            None => date.day_number() + days > max_day_number(),
        },
{
    let d = chrono::NaiveDate::from_ymd_opt(date.year, date.month, date.day).unwrap();
    d.checked_add_days(chrono::Days::new(days)).map(
        |x| Date { year: chrono::Datelike::year(&x), month: chrono::Datelike::month(&x), day: chrono::Datelike::day(&x) },
    )
}

/// The date `days` days before `date`.
///
/// Trusted: `chrono::NaiveDate::checked_sub_days` gives the date whose day
/// number is `days` less, and `None` exactly when that day lies outside
/// the supported range.
#[verifier::external_body]
fn sub_days(date: Date, days: u64) -> (r: Option<Date>)
    requires
        date.valid(),
    ensures
        match r {
            Some(x) => x.valid() && x.day_number() == date.day_number() - days,
            None => date.day_number() - days < min_day_number(),
        },
{
    let d = chrono::NaiveDate::from_ymd_opt(date.year, date.month, date.day).unwrap();
    d.checked_sub_days(chrono::Days::new(days)).map(
        |x| Date { year: chrono::Datelike::year(&x), month: chrono::Datelike::month(&x), day: chrono::Datelike::day(&x) },
    )
}

/// The date `days` days after `date`, when it is in range (`checked_add_days`).
pub fn checked_add_days(date: Date, days: u64) -> (r: Option<Date>)
    requires
        date.valid(),
    ensures
        match r {
            Some(x) => x.valid() && x.day_number() == date.day_number() + days,
            None => date.day_number() + days > max_day_number(),
        },
{
    add_days(date, days)
}

/// The date `days` days before `date`, when it is in range (`checked_sub_days`).
pub fn checked_sub_days(date: Date, days: u64) -> (r: Option<Date>)
    requires
        date.valid(),
    ensures
        match r {
            Some(x) => x.valid() && x.day_number() == date.day_number() - days,
            None => date.day_number() - days < min_day_number(),
        },
{
    sub_days(date, days)
}

/// The first day of a week.
#[derive(Clone, Copy, Debug, PartialEq, Eq, Structural)]
pub enum WeekStart {
    Monday,
    Sunday,
}

impl WeekStart {
    /// How many days `date` lies after the start of its week.
    pub open spec fn offset_spec(self, date: Date) -> int {
        match self {
            WeekStart::Monday => date.days_from_monday(),
            WeekStart::Sunday => date.days_from_sunday(),
        }
    }

    /// How many days `date` lies after the start of its week.
    pub fn offset_for(self, date: Date) -> (r: u32)
        requires
            date.valid(),
        ensures
            r == self.offset_spec(date),
            r < 7,
    {
        let w = weekday_of(date);
        proof {
            lemma_mod7_succ(date.day_number() - 1);
        }
        match self {
            WeekStart::Monday => w.num_days_from_monday(),
            WeekStart::Sunday => w.num_days_from_sunday(),
        }
    }
}

proof fn lemma_mod7_succ(x: int)
    ensures
        ((x % 7) + 1) % 7 == (x + 1) % 7,
        0 <= x % 7 < 7,
{
    vstd::arithmetic::div_mod::lemma_fundamental_div_mod(x, 7);
    let q = x / 7;
    let r = x % 7;
    if r == 6 {
        vstd::arithmetic::div_mod::lemma_fundamental_div_mod_converse(x + 1, 7, q + 1, 0);
    } else {
        vstd::arithmetic::div_mod::lemma_fundamental_div_mod_converse(x + 1, 7, q, r + 1);
    }
}

/// The first day of the month of `date`.
pub fn first_of_month(date: Date) -> (r: Date)
    requires
        date.valid(),
    ensures
        r == date.first_of_month_spec(),
        r.valid(),
{
    Date { year: date.year, month: date.month, day: 1 }
}

/// The first day of the month after the month of `date`.
pub open spec fn next_month_spec(date: Date) -> Date {
    if date.month == 12 {
        Date { year: (date.year + 1) as i32, month: 1, day: 1 }
    } else {
        Date { year: date.year, month: (date.month + 1) as u32, day: 1 }
    }
}

/// The first day of the month before the month of `date`.
pub open spec fn previous_month_spec(date: Date) -> Date {
    if date.month == 1 {
        Date { year: (date.year - 1) as i32, month: 12, day: 1 }
    } else {
        Date { year: date.year, month: (date.month - 1) as u32, day: 1 }
    }
}

/// The first day of the next month.
pub fn next_month(date: Date) -> (r: Date)
    requires
        date.valid(),
        !(date.month == 12 && date.year == MAX_YEAR),
    ensures
        r == next_month_spec(date),
        r.valid(),
{
    if date.month == 12 {
        Date { year: date.year + 1, month: 1, day: 1 }
    } else {
        Date { year: date.year, month: date.month + 1, day: 1 }
    }
}

/// The first day of the previous month.
pub fn previous_month(date: Date) -> (r: Date)
    requires
        date.valid(),
        !(date.month == 1 && date.year == MIN_YEAR),
    ensures
        r == previous_month_spec(date),
        r.valid(),
{
    if date.month == 1 {
        Date { year: date.year - 1, month: 12, day: 1 }
    } else {
        Date { year: date.year, month: date.month - 1, day: 1 }
    }
}

/// The same day `years` years later, moved back to the last day of the
/// month when that month is shorter in the target year.
pub open spec fn shift_year_spec(date: Date, years: int) -> Date {
    let y = date.year + years;
    let dim = days_in_month(y, date.month as int);
    Date {
        year: y as i32,
        month: date.month,
        day: if date.day <= dim {
            date.day
        } else {
            dim as u32
        },
    }
}

/// Shifts a date by whole years, clamping the day (February 29 becomes
/// February 28 in a common year).
pub fn shift_year_clamped(date: Date, years: i32) -> (r: Date)
    requires
        date.valid(),
        MIN_YEAR <= date.year + years <= MAX_YEAR,
    ensures
        r == shift_year_spec(date, years as int),
        r.valid(),
{
    let target_year = date.year + years;
    let mut day = date.day;
    loop
        invariant
            1 <= day <= date.day,
            date.valid(),
            target_year == date.year + years,
            MIN_YEAR <= target_year <= MAX_YEAR,
            forall|k: int|
                day < k <= date.day ==> !valid_ymd(target_year as int, date.month as int, k),
        decreases day,
    {
        if ymd_is_valid(target_year, date.month, day) {
            if day < date.day {
                assert(!valid_ymd(target_year as int, date.month as int, day + 1));
            }
            return Date { year: target_year, month: date.month, day };
        }
        day = day - 1;
    }
}

/// The day number of the first cell of the month grid of `anchor`.
pub open spec fn grid_start_number(anchor: Date, week_start: WeekStart) -> int {
    let first = anchor.first_of_month_spec();
    let start = first.day_number() - week_start.offset_spec(first);
    if start >= min_day_number() {
        start
    } else {
        first.day_number()
    }
}

/// The 42 consecutive days (six weeks) shown for the month of `anchor`,
/// starting on the week start on or before the first of the month.
pub fn month_grid(anchor: Date, week_start: WeekStart) -> (r: Vec<Date>)
    requires
        anchor.valid(),
        grid_start_number(anchor, week_start) + 41 <= max_day_number(),
    ensures
        r.len() == 42,
        forall|i: int|
            0 <= i < 42 ==> (#[trigger] r[i]).valid() && r[i].day_number() == grid_start_number(
                anchor,
                week_start,
            ) + i,
{
    let first = first_of_month(anchor);
    let offset = week_start.offset_for(first) as u64;
    let start = match checked_sub_days(first, offset) {
        Some(d) => d,
        None => first,
    };
    let mut r: Vec<Date> = Vec::new();
    let mut i: u64 = 0;
    while i < 42
        invariant
            i <= 42,
            r.len() == i,
            start.valid(),
            start.day_number() == grid_start_number(anchor, week_start),
            grid_start_number(anchor, week_start) + 41 <= max_day_number(),
            forall|k: int|
                0 <= k < i ==> (#[trigger] r[k]).valid() && r[k].day_number()
                    == grid_start_number(anchor, week_start) + k,
        decreases 42 - i,
    {
        match checked_add_days(start, i) {
            Some(d) => r.push(d),
            None => {
                assert(false);
            },
        }
        i = i + 1;
    }
    r
}


/// The number of days of year `y`.
pub open spec fn days_in_year(y: int) -> int {
    if is_leap(y) {
        366
    } else {
        365
    }
}

/// The day number of January 1 of year `y`.
pub open spec fn year_start(y: int) -> int {
    day_number_of(y, 1, 1)
}

proof fn lemma_floor_step(y: int, n: int)
    requires
        n > 0,
    ensures
        y / n - (y - 1) / n == (if y % n == 0 {
            1int
        } else {
            0int
        }),
{
    let q = (y - 1) / n;
    let r = (y - 1) % n;
    vstd::arithmetic::div_mod::lemma_fundamental_div_mod(y - 1, n);
    assert(y - 1 == n * q + r);
    if r == n - 1 {
        assert(y == (q + 1) * n + 0) by (nonlinear_arith)
            requires
                y - 1 == n * q + r,
                r == n - 1,
        ;
        vstd::arithmetic::div_mod::lemma_fundamental_div_mod_converse(y, n, q + 1, 0);
    } else {
        assert(y == q * n + (r + 1)) by (nonlinear_arith)
            requires
                y - 1 == n * q + r,
        ;
        vstd::arithmetic::div_mod::lemma_fundamental_div_mod_converse(y, n, q, r + 1);
    }
}

proof fn lemma_divides_chain(y: int)
    ensures
        y % 400 == 0 ==> y % 100 == 0,
        y % 100 == 0 ==> y % 4 == 0,
{
    if y % 400 == 0 {
        vstd::arithmetic::div_mod::lemma_fundamental_div_mod(y, 400);
        let k = y / 400;
        assert(y == (4 * k) * 100 + 0) by (nonlinear_arith)
            requires
                y == 400 * k + y % 400,
                y % 400 == 0,
        ;
        vstd::arithmetic::div_mod::lemma_fundamental_div_mod_converse(y, 100, 4 * k, 0);
    }
    if y % 100 == 0 {
        vstd::arithmetic::div_mod::lemma_fundamental_div_mod(y, 100);
        let k = y / 100;
        assert(y == (25 * k) * 4 + 0) by (nonlinear_arith)
            requires
                y == 100 * k + y % 100,
                y % 100 == 0,
        ;
        vstd::arithmetic::div_mod::lemma_fundamental_div_mod_converse(y, 4, 25 * k, 0);
    }
}

/// Consecutive years start `days_in_year` days apart.
pub proof fn lemma_year_step(y: int)
    ensures
        year_start(y + 1) == year_start(y) + days_in_year(y),
{
    lemma_floor_step(y, 4);
    lemma_floor_step(y, 100);
    lemma_floor_step(y, 400);
    lemma_divides_chain(y);
}

proof fn lemma_year_start_monotone(y1: int, y2: int)
    requires
        y1 < y2,
    ensures
        year_start(y2) >= year_start(y1 + 1),
    decreases y2 - y1,
{
    if y2 > y1 + 1 {
        lemma_year_start_monotone(y1, y2 - 1);
        lemma_year_step(y2 - 1);
    }
}

proof fn lemma_within_year(d: Date)
    requires
        d.valid(),
    ensures
        year_start(d.year as int) <= d.day_number() < year_start(d.year as int) + days_in_year(
            d.year as int,
        ),
{
}

/// A date is determined by its day number.
pub proof fn lemma_day_number_injective(a: Date, b: Date)
    requires
        a.valid(),
        b.valid(),
        a.day_number() == b.day_number(),
    ensures
        a == b,
{
    lemma_within_year(a);
    lemma_within_year(b);
    if a.year < b.year {
        lemma_year_start_monotone(a.year as int, b.year as int);
        lemma_year_step(a.year as int);
    } else if b.year < a.year {
        lemma_year_start_monotone(b.year as int, a.year as int);
        lemma_year_step(b.year as int);
    }
}

/// Day numbers follow the calendar order of dates.
pub proof fn lemma_day_number_order(a: Date, b: Date)
    requires
        a.valid(),
        b.valid(),
    ensures
        date_before(a, b) <==> a.day_number() < b.day_number(),
{
    lemma_within_year(a);
    lemma_within_year(b);
    if a.year < b.year {
        lemma_year_start_monotone(a.year as int, b.year as int);
        lemma_year_step(a.year as int);
    } else if b.year < a.year {
        lemma_year_start_monotone(b.year as int, a.year as int);
        lemma_year_step(b.year as int);
    }
}

/// Going to the next month and back lands on the first of the month.
pub proof fn lemma_next_then_previous_month(date: Date)
    requires
        date.valid(),
        !(date.month == 12 && date.year == MAX_YEAR),
    ensures
        previous_month_spec(next_month_spec(date)) == date.first_of_month_spec(),
{
}

/// Going to the previous month and forward lands on the first of the month.
pub proof fn lemma_previous_then_next_month(date: Date)
    requires
        date.valid(),
        !(date.month == 1 && date.year == MIN_YEAR),
    ensures
        next_month_spec(previous_month_spec(date)) == date.first_of_month_spec(),
{
}

/// Shifting by whole years keeps the month and every day that exists in the
/// target year; a later day becomes the last day of that month.
pub proof fn lemma_shift_year_keeps_existing_days(date: Date, years: int)
    requires
        date.valid(),
        MIN_YEAR <= date.year + years <= MAX_YEAR,
    ensures
        shift_year_spec(date, years).valid(),
        shift_year_spec(date, years).month == date.month,
        valid_ymd(date.year + years, date.month as int, date.day as int) ==> shift_year_spec(
            date,
            years,
        ).day == date.day,
        !valid_ymd(date.year + years, date.month as int, date.day as int) ==> shift_year_spec(
            date,
            years,
        ).day == days_in_month(date.year + years, date.month as int),
{
}

/// The month grid starts on the chosen first day of the week, puts the first
/// of the month at the week offset of that day, and holds every day of the
/// month, when the grid start is in range.
pub proof fn lemma_month_grid_layout(anchor: Date, week_start: WeekStart, start: Date, k: int)
    requires
        anchor.valid(),
        start.valid(),
        start.day_number() == grid_start_number(anchor, week_start),
        anchor.first_of_month_spec().day_number() - week_start.offset_spec(
            anchor.first_of_month_spec(),
        ) >= min_day_number(),
        1 <= k <= days_in_month(anchor.year as int, anchor.month as int),
    ensures
        week_start.offset_spec(start) == 0,
        anchor.first_of_month_spec().day_number() == start.day_number() + week_start.offset_spec(
            anchor.first_of_month_spec(),
        ),
        0 <= day_number_of(anchor.year as int, anchor.month as int, k) - start.day_number() < 42,
{
    let first = anchor.first_of_month_spec();
    let n = first.day_number();
    assert(0 <= week_start.offset_spec(first) < 7);
    match week_start {
        WeekStart::Monday => {
            assert((n - (n - 1) % 7 - 1) % 7 == 0) by (nonlinear_arith);
        },
        WeekStart::Sunday => {
            assert((n - n % 7) % 7 == 0) by (nonlinear_arith);
        },
    }
}


/// The day number of 1970-01-01, the day of UNIX time 0.
pub open spec fn epoch_day_number() -> int {
    day_number_of(1970, 1, 1)
}

/// Whether a UNIX time in seconds names an instant on a supported date.
pub open spec fn valid_timestamp(t: int) -> bool {
    min_day_number() <= epoch_day_number() + t / 86400 <= max_day_number()
}

proof fn lemma_shifted_div(a: int, n: int, k: int)
    requires
        n > 0,
        a + n * k >= 0,
    ensures
        (a + n * k) / n == a / n + k,
{
    vstd::arithmetic::div_mod::lemma_fundamental_div_mod(a, n);
    let q = a / n;
    let r = a % n;
    assert(a + n * k == n * (q + k) + r) by (nonlinear_arith)
        requires
            a == n * q + r,
    ;
    vstd::arithmetic::div_mod::lemma_fundamental_div_mod_converse(a + n * k, n, q + k, r);
}

/// The number of days before the first of a month in its year.
#[verifier::spinoff_prover]
#[verifier::rlimit(40)]
fn days_before_month_exec(year: i32, month: u32) -> (r: i64)
    requires
        1 <= month <= 12,
    ensures
        r == days_before_month(year as int, month as int),
{
    let base: i64 = if month == 1 {
        0
    } else if month == 2 {
        31
    } else if month == 3 {
        59
    } else if month == 4 {
        90
    } else if month == 5 {
        120
    } else if month == 6 {
        151
    } else if month == 7 {
        181
    } else if month == 8 {
        212
    } else if month == 9 {
        243
    } else if month == 10 {
        273
    } else if month == 11 {
        304
    } else {
        334
    };
    let leap = year % 4 == 0 && (year % 100 != 0 || year % 400 == 0);
    assert(leap == is_leap(year as int));
    if month > 2 && leap {
        base + 1
    } else {
        base
    }
}

/// The UNIX time of midnight UTC at the start of `date`.
pub fn midnight_utc(date: Date) -> (t: i64)
    requires
        date.valid(),
    ensures
        t == (date.day_number() - epoch_day_number()) * 86400,
        valid_timestamp(t as int),
{
    let shifted: i64 = date.year as i64 - 1 + 262400;
    proof {
        lemma_shifted_div(date.year - 1, 4, 65600);
        lemma_shifted_div(date.year - 1, 100, 2624);
        lemma_shifted_div(date.year - 1, 400, 656);
    }
    let q4 = shifted / 4 - 65600;
    let q100 = shifted / 100 - 2624;
    let q400 = shifted / 400 - 656;
    let days = 365 * (date.year as i64 - 1) + q4 - q100 + q400 + days_before_month_exec(
        date.year,
        date.month,
    ) + date.day as i64;
    assert(days == date.day_number());
    assert(epoch_day_number() == 719163);
    let t = (days - 719163) * 86400;
    assert(t / 86400 == days - 719163) by (nonlinear_arith)
        requires
            t == (days - 719163) * 86400,
    ;
    t
}

/// Whether a UNIX time names an instant on a supported date
/// (`valid_timestamp`).
pub fn timestamp_fits(t: i64) -> (r: bool)
    ensures
        r == valid_timestamp(t as int),
{
    let lo = midnight_utc(Date { year: MIN_YEAR, month: 1, day: 1 });
    let hi = midnight_utc(Date { year: MAX_YEAR, month: 12, day: 31 });
    proof {
        let k = t as int / 86400;
        vstd::arithmetic::div_mod::lemma_fundamental_div_mod(t as int, 86400);
        assert(86400 * k <= t < 86400 * k + 86400);
        let m = min_day_number() - epoch_day_number();
        let x = max_day_number() - epoch_day_number();
        assert(lo == m * 86400);
        assert(hi == x * 86400);
        assert(k >= m <==> t >= m * 86400) by (nonlinear_arith)
            requires
                86400 * k <= t < 86400 * k + 86400,
        ;
        assert(k <= x <==> t < x * 86400 + 86400) by (nonlinear_arith)
            requires
                86400 * k <= t < 86400 * k + 86400,
        ;
    }
    lo <= t && t < hi + 86400
}

/// Whether a UNIX time lies more than a day inside the supported range, so
/// that its local time in any time zone (whose offset from UTC is less than
/// a day) is a supported date and time too.
pub open spec fn local_time_in_range(t: int) -> bool {
    min_day_number() < epoch_day_number() + t / 86400 < max_day_number()
}

/// Whether an instant's local time can be read in any time zone
/// (`local_time_in_range`).
pub fn local_time_fits(t: i64) -> (r: bool)
    ensures
        r == local_time_in_range(t as int),
{
    let lo = midnight_utc(Date { year: MIN_YEAR, month: 1, day: 1 });
    let hi = midnight_utc(Date { year: MAX_YEAR, month: 12, day: 31 });
    proof {
        let k = t as int / 86400;
        vstd::arithmetic::div_mod::lemma_fundamental_div_mod(t as int, 86400);
        assert(86400 * k <= t < 86400 * k + 86400);
        let m = min_day_number() - epoch_day_number();
        let x = max_day_number() - epoch_day_number();
        assert(lo == m * 86400);
        assert(hi == x * 86400);
        assert(k > m <==> t >= (m + 1) * 86400) by (nonlinear_arith)
            requires
                86400 * k <= t < 86400 * k + 86400,
        ;
        assert(k < x <==> t < x * 86400) by (nonlinear_arith)
            requires
                86400 * k <= t < 86400 * k + 86400,
        ;
    }
    lo + 86400 <= t && t < hi
}

/// The current local date.
///
/// Trusted: `chrono::Local::now().date_naive()`; the result is a valid date,
/// which one depends on the clock and the machine's time zone.
#[verifier::external_body]
pub fn today() -> (d: Date)
    ensures
        d.valid(),
{
    let d = chrono::Local::now().date_naive();
    Date {
        year: chrono::Datelike::year(&d),
        month: chrono::Datelike::month(&d),
        day: chrono::Datelike::day(&d),
    }
}

/// The current UNIX time in whole seconds.
///
/// Trusted: `chrono::Utc::now().timestamp()`; the value depends on the clock,
/// and it lies in the range of supported dates.
#[verifier::external_body]
pub(crate) fn now_utc() -> (t: i64)
    ensures
        valid_timestamp(t as int),
{
    chrono::Utc::now().timestamp()
}

/// The UNIX time of local midnight at the start of `date`.
///
/// Trusted: `chrono::Local.from_local_datetime(..).earliest()` for midnight of
/// `date`; which instant that is depends on the machine's time zone, whose
/// offset from UTC is less than a day (`chrono::FixedOffset`), and it is
/// `None` when local midnight does not exist that day.
#[verifier::external_body]
fn local_midnight(date: Date) -> (t: Option<i64>)
    requires
        date.valid(),
    ensures
        t matches Some(v) ==> (date.day_number() - epoch_day_number()) * 86400 - 86400 < v < (
        date.day_number() - epoch_day_number()) * 86400 + 86400,
{
    let d = chrono::NaiveDate::from_ymd_opt(date.year, date.month, date.day).unwrap();
    chrono::TimeZone::from_local_datetime(&chrono::Local, &d.and_time(chrono::NaiveTime::MIN))
        .earliest()
        .map(|dt| dt.timestamp())
}

/// The UTC instant at which the local day `date` starts, `None` when the
/// local day has no midnight; it lies within a day of midnight UTC.
pub fn start_of_local_day_utc(date: Date) -> (t: Option<i64>)
    requires
        date.valid(),
    ensures
        t matches Some(v) ==> (date.day_number() - epoch_day_number()) * 86400 - 86400 < v < (
        date.day_number() - epoch_day_number()) * 86400 + 86400,
{
    local_midnight(date)
}

/// Whether `t` lies within a day of midnight UTC at the start of `date`, as
/// the start of that day in any time zone does.
pub open spec fn within_a_day_of_midnight(date: Date, t: int) -> bool {
    (date.day_number() - epoch_day_number()) * 86400 - 86400 < t < (date.day_number()
        - epoch_day_number()) * 86400 + 86400
}

/// The UTC instant at which the current local day started: the start of
/// the local day of the current date (`start_of_local_day_utc`), which lies
/// within a day of that date's midnight UTC.
pub fn start_of_today_utc() -> (t: Option<i64>)
    ensures
        t matches Some(v) ==> exists|d: Date| d.valid() && #[trigger] within_a_day_of_midnight(d, v as int),
{
    let d = today();
    let t = start_of_local_day_utc(d);
    proof {
        if let Some(v) = t {
            assert(within_a_day_of_midnight(d, v as int));
        }
    }
    t
}

} // verus!
