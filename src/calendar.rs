//! Proleptic Gregorian dates and UTC timestamps.
//!
//! Calendar arithmetic is delegated to chrono's `NaiveDate`; this module
//! states what those calls return in terms of a day count from 1970-01-01.
use chrono::Datelike;
use vstd::prelude::*;

verus! {

/// Earliest year that chrono's `NaiveDate` can represent.
pub const MIN_YEAR: i32 = -262143;

/// Latest year that chrono's `NaiveDate` can represent.
pub const MAX_YEAR: i32 = 262142;

pub const SECS_PER_DAY: u32 = 86400;

pub const NANOS_PER_SEC: u32 = 1000000000;

pub open spec fn nanos_per_day() -> int {
    86400000000000
}

pub open spec fn is_leap_year(y: int) -> bool {
    (y % 4 == 0 && y % 100 != 0) || y % 400 == 0
}

pub open spec fn days_in_month(y: int, m: int) -> int {
    if m == 2 {
        if is_leap_year(y) {
            29
        } else {
            28
        }
    } else if m == 4 || m == 6 || m == 9 || m == 11 {
        30
    } else {
        31
    }
}

pub open spec fn days_in_year(y: int) -> int {
    if is_leap_year(y) {
        366
    } else {
        365
    }
}

/// Days of year `y` that lie before the first of month `m`.
pub open spec fn days_before_month(y: int, m: int) -> int {
    let common: int = if m <= 1 {
        0
    } else if m == 2 {
        31
    } else if m == 3 {
        59
    } else if m == 4 {
        90
    } else if m == 5 {
        120
    } else if m == 6 {
        151
    } else if m == 7 {
        181
    } else if m == 8 {
        212
    } else if m == 9 {
        243
    } else if m == 10 {
        273
    } else if m == 11 {
        304
    } else {
        334
    };
    if m > 2 && is_leap_year(y) {
        common + 1
    } else {
        common
    }
}

/// Days from 1970-01-01 to the first of January of year `y` (negative before 1970).
pub open spec fn days_before_year(y: int) -> int
    decreases (if y < 1970 {
        1970 - y
    } else {
        y - 1970
    }),
{
    if y > 1970 {
        days_before_year(y - 1) + days_in_year(y - 1)
    } else if y < 1970 {
        days_before_year(y + 1) - days_in_year(y)
    } else {
        0
    }
}

pub open spec fn year_in_range(y: int) -> bool {
    MIN_YEAR <= y <= MAX_YEAR
}

/// A calendar date: year, month (1 to 12) and day of the month (from 1).
#[derive(Clone, Copy, Debug, PartialEq, Eq, Structural)]
pub struct CivilDate {
    pub year: i32,
    pub month: u32,
    pub day: u32,
}

/// The first date chrono can represent.
pub open spec fn first_date() -> CivilDate {
    CivilDate { year: MIN_YEAR, month: 1, day: 1 }
}

/// The last date chrono can represent.
pub open spec fn last_date() -> CivilDate {
    CivilDate { year: MAX_YEAR, month: 12, day: 31 }
}

pub open spec fn day_number_in_range(n: int) -> bool {
    first_date().day_number() <= n <= last_date().day_number()
}

impl CivilDate {
    /// The date exists in the calendar and lies in chrono's range.
    pub open spec fn valid(self) -> bool {
        &&& year_in_range(self.year as int)
        &&& 1 <= self.month <= 12
        &&& 1 <= self.day <= days_in_month(self.year as int, self.month as int)
    }

    /// Days since 1970-01-01.
    pub open spec fn day_number(self) -> int {
        days_before_year(self.year as int) + days_before_month(self.year as int, self.month as int)
            + self.day - 1
    }

    /// Strictly earlier in (year, month, day) order.
    pub open spec fn precedes(self, other: CivilDate) -> bool {
        ||| self.year < other.year
        ||| (self.year == other.year && self.month < other.month)
        ||| (self.year == other.year && self.month == other.month && self.day < other.day)
    }

    /// Checks that `year`, `month` and `day` name a date in range.
    pub fn from_ymd(year: i32, month: u32, day: u32) -> (r: Option<CivilDate>)
        ensures
            r == (if (CivilDate { year, month, day }).valid() {
                Some(CivilDate { year, month, day })
            } else {
                None
            }),
    {
        if year < MIN_YEAR || year > MAX_YEAR || month < 1 || month > 12 || day < 1 {
            return None;
        }
        let leap = (year % 4 == 0 && year % 100 != 0) || year % 400 == 0;
        let limit: u32 = if month == 2 {
            if leap {
                29
            } else {
                28
            }
        } else if month == 4 || month == 6 || month == 9 || month == 11 {
            30
        } else {
            31
        };
        if day > limit {
            None
        } else {
            Some(CivilDate { year, month, day })
        }
    }
}

/// Moves `d` by `k` calendar months, keeping the day of the month where it
/// exists and otherwise taking the last day of the target month.
pub open spec fn add_months_spec(d: CivilDate, k: int) -> Option<CivilDate> {
    let index = d.year * 12 + d.month - 1 + k;
    let y = index / 12;
    let m = index % 12 + 1;
    let last = days_in_month(y, m);
    if year_in_range(y) {
        Some(CivilDate { year: y as i32, month: m as u32, day: if d.day <= last { d.day } else { last as u32 } })
    } else {
        None
    }
}

/// The same month and day in year `y`, where that date exists.
pub open spec fn with_year_spec(d: CivilDate, y: int) -> Option<CivilDate> {
    if year_in_range(y) && d.day <= days_in_month(y, d.month as int) {
        Some(CivilDate { year: y as i32, ..d })
    } else {
        None
    }
}

/// The date `k` days after `d` (before, for negative `k`), where it exists.
pub open spec fn add_days_spec(d: CivilDate, k: int) -> Option<CivilDate> {
    let n = d.day_number() + k;
    if exists|e: CivilDate| e.valid() && e.day_number() == n {
        Some(choose|e: CivilDate| e.valid() && e.day_number() == n)
    } else {
        None
    }
}

/// An instant in UTC: a date, the seconds since midnight and the nanoseconds
/// within that second.
#[derive(Clone, Copy, Debug, PartialEq, Eq, Structural)]
pub struct Timestamp {
    pub date: CivilDate,
    pub secs: u32,
    pub nanos: u32,
}

impl Timestamp {
    pub open spec fn valid(self) -> bool {
        &&& self.date.valid()
        &&& self.secs < SECS_PER_DAY
        &&& self.nanos < NANOS_PER_SEC
    }

    /// Nanoseconds since midnight.
    pub open spec fn time_of_day(self) -> int {
        self.secs * 1000000000 + self.nanos
    }

    /// Nanoseconds since 1970-01-01T00:00:00Z.
    pub open spec fn instant(self) -> int {
        self.date.day_number() * nanos_per_day() + self.time_of_day()
    }

    /// 1970-01-01T00:00:00Z.
    pub open spec fn epoch_spec() -> Timestamp {
        Timestamp { date: CivilDate { year: 1970, month: 1, day: 1 }, secs: 0, nanos: 0 }
    }

    pub fn epoch() -> (r: Timestamp)
        ensures
            r == Timestamp::epoch_spec(),
            r.valid(),
            r.instant() == 0,
    {
        Timestamp { date: CivilDate { year: 1970, month: 1, day: 1 }, secs: 0, nanos: 0 }
    }

    /// Midnight UTC at the start of `date`.
    pub fn at_midnight(date: CivilDate) -> (r: Timestamp)
        ensures
            r == (Timestamp { date, secs: 0, nanos: 0 }),
    {
        Timestamp { date, secs: 0, nanos: 0 }
    }

    /// Checks that the fields name a valid instant.
    pub fn is_valid(&self) -> (r: bool)
        ensures
            r == self.valid(),
    {
        CivilDate::from_ymd(self.date.year, self.date.month, self.date.day).is_some()
            && self.secs < SECS_PER_DAY && self.nanos < NANOS_PER_SEC
    }

    /// Whether `self` lies strictly before `other`.
    pub fn is_before(&self, other: &Timestamp) -> (r: bool)
        requires
            self.valid(),
            other.valid(),
        ensures
            r == (self.instant() < other.instant()),
    {
        proof {
            lemma_instant_order(*self, *other);
            lemma_instant_order(*other, *self);
        }
        let a = self.date;
        let b = other.date;
        if a.year != b.year {
            a.year < b.year
        } else if a.month != b.month {
            a.month < b.month
        } else if a.day != b.day {
            a.day < b.day
        } else if self.secs != other.secs {
            self.secs < other.secs
        } else {
            self.nanos < other.nanos
        }
    }
}

pub proof fn lemma_days_before_year_step(y: int)
    ensures
        days_before_year(y + 1) == days_before_year(y) + days_in_year(y),
{
    if y < 1969 {
        assert(days_before_year(y) == days_before_year(y + 1) - days_in_year(y));
    } else if y == 1969 {
        assert(days_before_year(1969) == days_before_year(1970) - days_in_year(1969));
    } else {
        assert(days_before_year(y + 1) == days_before_year(y) + days_in_year(y));
    }
}

pub proof fn lemma_days_before_year_grows(a: int, b: int)
    requires
        a < b,
    ensures
        days_before_year(a) + days_in_year(a) <= days_before_year(b),
    decreases b - a,
{
    lemma_days_before_year_step(a);
    if a + 1 < b {
        lemma_days_before_year_grows(a + 1, b);
    }
}

pub proof fn lemma_days_before_month_grows(y: int, m1: int, m2: int)
    requires
        1 <= m1 < m2 <= 12,
    ensures
        days_before_month(y, m1) + days_in_month(y, m1) <= days_before_month(y, m2),
{
}

pub proof fn lemma_days_before_month_bound(y: int, m: int)
    requires
        1 <= m <= 12,
    ensures
        0 <= days_before_month(y, m),
        days_before_month(y, m) + days_in_month(y, m) <= days_in_year(y),
{
}

/// Day numbers follow calendar order.
pub proof fn lemma_day_number_strict(a: CivilDate, b: CivilDate)
    requires
        a.valid(),
        b.valid(),
        a.precedes(b),
    ensures
        a.day_number() < b.day_number(),
{
    let (ya, yb) = (a.year as int, b.year as int);
    lemma_days_before_month_bound(ya, a.month as int);
    lemma_days_before_month_bound(yb, b.month as int);
    if ya < yb {
        lemma_days_before_year_grows(ya, yb);
    } else if a.month < b.month {
        lemma_days_before_month_grows(ya, a.month as int, b.month as int);
    }
}

/// Distinct valid dates have distinct day numbers.
pub proof fn lemma_day_number_injective(a: CivilDate, b: CivilDate)
    requires
        a.valid(),
        b.valid(),
        a.day_number() == b.day_number(),
    ensures
        a == b,
{
    if a.precedes(b) {
        lemma_day_number_strict(a, b);
    } else if b.precedes(a) {
        lemma_day_number_strict(b, a);
    }
}

/// Every valid date has a day number in chrono's range.
pub proof fn lemma_day_number_range(d: CivilDate)
    requires
        d.valid(),
    ensures
        day_number_in_range(d.day_number()),
{
    if d != first_date() {
        lemma_day_number_strict(first_date(), d);
    }
    if d != last_date() {
        lemma_day_number_strict(d, last_date());
    }
}

/// An earlier date means an earlier instant, whatever the times of day.
pub proof fn lemma_earlier_date_earlier_instant(a: Timestamp, b: Timestamp)
    requires
        a.valid(),
        b.valid(),
        a.date.day_number() < b.date.day_number(),
    ensures
        a.instant() < b.instant(),
{
}

/// Comparing timestamps field by field agrees with comparing instants.
pub proof fn lemma_instant_order(a: Timestamp, b: Timestamp)
    requires
        a.valid(),
        b.valid(),
    ensures
        a.date.precedes(b.date) ==> a.instant() < b.instant(),
        a.date == b.date ==> (a.instant() < b.instant() <==> a.time_of_day() < b.time_of_day()),
        a.instant() <= b.instant() ==> (a.date == b.date || a.date.precedes(b.date)),
{
    if a.date.precedes(b.date) {
        lemma_day_number_strict(a.date, b.date);
        lemma_earlier_date_earlier_instant(a, b);
    }
    if b.date.precedes(a.date) {
        lemma_day_number_strict(b.date, a.date);
        lemma_earlier_date_earlier_instant(b, a);
    }
}

/// Relies on chrono's `NaiveDate::checked_add_days`: the date `n` days later,
/// or `None` where it falls outside `NaiveDate`'s range.
#[verifier::external_body]
fn date_add_days(d: CivilDate, n: u32) -> (r: Option<CivilDate>)
    requires
        d.valid(),
    ensures
        r is Some <==> day_number_in_range(d.day_number() + n),
        r matches Some(e) ==> e.valid() && e.day_number() == d.day_number() + n,
{
    chrono::NaiveDate::from_ymd_opt(d.year, d.month, d.day)
        .and_then(|x| x.checked_add_days(chrono::Days::new(n as u64)))
        .map(|x| CivilDate { year: x.year(), month: x.month(), day: x.day() })
}

/// Relies on chrono's `NaiveDate::checked_sub_days`: the date `n` days earlier,
/// or `None` where it falls outside `NaiveDate`'s range.
#[verifier::external_body]
fn date_sub_days(d: CivilDate, n: u32) -> (r: Option<CivilDate>)
    requires
        d.valid(),
    ensures
        r is Some <==> day_number_in_range(d.day_number() - n),
        r matches Some(e) ==> e.valid() && e.day_number() == d.day_number() - n,
{
    chrono::NaiveDate::from_ymd_opt(d.year, d.month, d.day)
        .and_then(|x| x.checked_sub_days(chrono::Days::new(n as u64)))
        .map(|x| CivilDate { year: x.year(), month: x.month(), day: x.day() })
}

/// Relies on chrono's `NaiveDate::checked_add_months`: `n` months later,
/// clamped to the last day of a shorter month; `None` out of range.
#[verifier::external_body]
fn date_add_months(d: CivilDate, n: u32) -> (r: Option<CivilDate>)
    requires
        d.valid(),
    ensures
        r == add_months_spec(d, n as int),
{
    chrono::NaiveDate::from_ymd_opt(d.year, d.month, d.day)
        .and_then(|x| x.checked_add_months(chrono::Months::new(n)))
        .map(|x| CivilDate { year: x.year(), month: x.month(), day: x.day() })
}

/// Relies on chrono's `NaiveDate::checked_sub_months`: `n` months earlier,
/// clamped to the last day of a shorter month; `None` out of range.
#[verifier::external_body]
fn date_sub_months(d: CivilDate, n: u32) -> (r: Option<CivilDate>)
    requires
        d.valid(),
    ensures
        r == add_months_spec(d, -(n as int)),
{
    chrono::NaiveDate::from_ymd_opt(d.year, d.month, d.day)
        .and_then(|x| x.checked_sub_months(chrono::Months::new(n)))
        .map(|x| CivilDate { year: x.year(), month: x.month(), day: x.day() })
}

/// Relies on chrono's `Datelike::with_year` for `NaiveDate`: the same month and
/// day in year `y`, or `None` where that date does not exist or is out of range.
#[verifier::external_body]
fn date_with_year(d: CivilDate, y: i32) -> (r: Option<CivilDate>)
    requires
        d.valid(),
    ensures
        r == with_year_spec(d, y as int),
{
    chrono::NaiveDate::from_ymd_opt(d.year, d.month, d.day)
        .and_then(|x| x.with_year(y))
        .map(|x| CivilDate { year: x.year(), month: x.month(), day: x.day() })
}

/// The date `k` days after `d`, through chrono.
pub fn shift_days(d: CivilDate, k: i32) -> (r: Option<CivilDate>)
    requires
        d.valid(),
    ensures
        r == add_days_spec(d, k as int),
        r is Some <==> day_number_in_range(d.day_number() + k),
        r matches Some(e) ==> e.valid(),
{
    let magnitude: u32 = if k >= 0 {
        k as u32
    } else if k == i32::MIN {
        2147483648u32
    } else {
        (-k) as u32
    };
    let r = if k > 0 {
        date_add_days(d, magnitude)
    } else {
        date_sub_days(d, magnitude)
    };
    let ghost n = d.day_number() + k;
    proof {
        match r {
            Some(e) => {
                assert(e.valid() && e.day_number() == n);
                let c = choose|c: CivilDate| c.valid() && c.day_number() == n;
                lemma_day_number_injective(c, e);
            },
            None => {
                assert forall|e: CivilDate| e.valid() implies e.day_number() != n by {
                    lemma_day_number_range(e);
                }
            },
        }
    }
    r
}

/// The date `k` months after `d`, through chrono.
pub fn shift_months(d: CivilDate, k: i32) -> (r: Option<CivilDate>)
    requires
        d.valid(),
    ensures
        r == add_months_spec(d, k as int),
{
    if k > 0 {
        date_add_months(d, k as u32)
    } else if k == i32::MIN {
        date_sub_months(d, 2147483648u32)
    } else {
        date_sub_months(d, (-k) as u32)
    }
}

/// The same month and day `k` years after `d`, through chrono.
pub fn shift_years(d: CivilDate, k: i32) -> (r: Option<CivilDate>)
    requires
        d.valid(),
    ensures
        r == with_year_spec(d, d.year + k),
{
    match d.year.checked_add(k) {
        Some(y) => date_with_year(d, y),
        None => None,
    }
}

} // verus!
