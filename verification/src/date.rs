//! Calendar dates, and the `YYYYMMDD` numbers that policy artifacts hold.

use vstd::prelude::*;

use chrono::Datelike;

verus! {

/// The earliest year of the calendar.
pub const MIN_YEAR: i32 = -262_143;

/// The latest year of the calendar.
pub const MAX_YEAR: i32 = 262_142;

/// A day of the proleptic Gregorian calendar.
#[derive(Clone, Copy, Debug, PartialEq, Eq, Structural, Hash)]
pub struct Date {
    /// The year; 0 is the year before year 1.
    pub year: i32,
    /// The month, from 1.
    pub month: u32,
    /// The day of the month, from 1.
    pub day: u32,
}

/// Whether February of `year` has 29 days.
pub open spec fn leap_year(year: int) -> bool {
    year % 4 == 0 && (year % 100 != 0 || year % 400 == 0)
}

/// How many days `month` of `year` has.
pub open spec fn days_in_month(year: int, month: int) -> int {
    if month == 2 {
        if leap_year(year) {
            29
        } else {
            28
        }
    } else if month == 4 || month == 6 || month == 9 || month == 11 {
        30
    } else {
        31
    }
}

/// Whether year, month and day name a day of the calendar.
pub open spec fn is_calendar_day(year: int, month: int, day: int) -> bool {
    MIN_YEAR <= year <= MAX_YEAR && 1 <= month <= 12 && 1 <= day <= days_in_month(year, month)
}

/// How many days of `year` come before the first of `month`.
pub open spec fn days_before_month(year: int, month: int) -> int
    decreases month,
{
    if month <= 1 {
        0
    } else {
        days_before_month(year, month - 1) + days_in_month(year, month - 1)
    }
}

/// The number of a day, where January 1 of year 1 is day 1.
pub open spec fn day_number(year: int, month: int, day: int) -> int {
    let y = year - 1;
    365 * y + y / 4 - y / 100 + y / 400 + days_before_month(year, month) + day
}

impl Date {
    /// The date is a day of the calendar.
    pub open spec fn valid(self) -> bool {
        is_calendar_day(self.year as int, self.month as int, self.day as int)
    }

    /// The date as a `YYYYMMDD` number. Later dates have greater numbers.
    pub open spec fn number(self) -> int {
        self.year * 10_000 + self.month * 100 + self.day
    }

    /// The day's number, where January 1 of year 1 is day 1.
    pub open spec fn days(self) -> int {
        day_number(self.year as int, self.month as int, self.day as int)
    }

    /// The date as a `YYYYMMDD` number, in 64 bits.
    pub fn order_number(self) -> (r: i64)
        ensures
            r == self.number(),
    {
        self.year as i64 * 10_000 + self.month as i64 * 100 + self.day as i64
    }

    /// Whether the date is later than `other`.
    pub fn is_after(self, other: Date) -> (r: bool)
        ensures
            r == (self.number() > other.number()),
    {
        self.order_number() > other.order_number()
    }
}

/// `chrono::NaiveDate::from_ymd_opt`: whether year, month and day name a day of
/// the calendar, which is documented to have the years from `NaiveDate::MIN` to
/// `NaiveDate::MAX`.
#[verifier::external_body]
fn from_ymd_opt(year: i32, month: u32, day: u32) -> (r: bool)
    ensures
        r == is_calendar_day(year as int, month as int, day as int),
{
    chrono::NaiveDate::from_ymd_opt(year, month, day).is_some()
}

/// The day that `chrono::NaiveDate::parse_from_str` reads out of a text with the
/// format `%Y-%m-%d`: year, month and day, or nothing where it gives an error.
pub uninterp spec fn iso_date(text: Seq<char>) -> Option<(i32, u32, u32)>;

/// `chrono::NaiveDate::parse_from_str` with the format `%Y-%m-%d`. What it gives is
/// a day of the calendar. Which texts it accepts is not stated.
#[verifier::external_body]
fn parse_from_str(text: &str) -> (r: Option<(i32, u32, u32)>)
    ensures
        r == iso_date(text@),
        match r {
            Some((year, month, day)) => is_calendar_day(year as int, month as int, day as int),
            None => true,
        },
{
    let date = chrono::NaiveDate::parse_from_str(text, "%Y-%m-%d").ok()?;
    Some((date.year(), date.month(), date.day()))
}

/// `chrono::Datelike::num_days_from_ce`: the number of a day of the calendar, where
/// January 1 of year 1 is day 1.
#[verifier::external_body]
fn num_days_from_ce(year: i32, month: u32, day: u32) -> (r: i32)
    requires
        is_calendar_day(year as int, month as int, day as int),
    ensures
        r == day_number(year as int, month as int, day as int),
{
    chrono::NaiveDate::from_ymd_opt(year, month, day).unwrap_or_default().num_days_from_ce()
}

/// The date that an ISO 8601 text names.
pub open spec fn date_of(text: Seq<char>) -> Option<Date> {
    match iso_date(text) {
        Some((year, month, day)) => Some(Date { year, month, day }),
        None => None,
    }
}

/// Reads an ISO 8601 date.
pub fn read_iso_date(text: &str) -> (r: Option<Date>)
    ensures
        r == date_of(text@),
        r matches Some(date) ==> date.valid(),
{
    match parse_from_str(text) {
        Some((year, month, day)) => Some(Date { year, month, day }),
        None => None,
    }
}

/// The number of days from January 1, 1970 to a day.
pub open spec fn date32(date: Date) -> i32 {
    (date.days() - day_number(1970, 1, 1)) as i32
}

/// The number of days from January 1, 1970 to `date`.
pub fn date32_days(date: Date) -> (r: i32)
    requires
        date.valid(),
    ensures
        r == date.days() - day_number(1970, 1, 1),
        r == date32(date),
{
    proof {
        days_before_month_bound(date.year as int, date.month as int);
        assert(day_number(1970, 1, 1) == 719_163) by {
            assert(days_before_month(1970, 1) == 0);
        }
    }
    num_days_from_ce(date.year, date.month, date.day) - num_days_from_ce(1970, 1, 1)
}

proof fn days_before_month_bound(year: int, month: int)
    ensures
        0 <= days_before_month(year, month),
        1 <= month <= 12 ==> days_before_month(year, month) <= 31 * (month - 1),
    decreases month,
{
    if month > 1 {
        days_before_month_bound(year, month - 1);
    }
}

/// Later dates have greater `YYYYMMDD` numbers: the numbers order dates by year,
/// then month, then day.
pub proof fn numbers_order_dates(a: Date, b: Date)
    requires
        a.valid(),
        b.valid(),
    ensures
        a.number() < b.number() <==> (a.year < b.year || (a.year == b.year && (a.month < b.month
            || (a.month == b.month && a.day < b.day)))),
        a.number() == b.number() ==> a == b,
{
}

proof fn months_add_up(year: int, from: int, to: int)
    requires
        1 <= from <= to,
    ensures
        days_before_month(year, from) <= days_before_month(year, to),
        from < to ==> days_before_month(year, from) + days_in_month(year, from)
            <= days_before_month(year, to),
    decreases to,
{
    if from < to {
        months_add_up(year, from, to - 1);
    }
}

proof fn months_of_a_year(year: int)
    ensures
        days_before_month(year, 12) == if leap_year(year) {
            335int
        } else {
            334
        },
{
    reveal_with_fuel(days_before_month, 12);
}

proof fn leap_days(year: int)
    ensures
        ({
            let y = year - 1;
            (year / 4 - year / 100 + year / 400) - (y / 4 - y / 100 + y / 400) == if leap_year(year) {
                1int
            } else {
                0
            }
        }),
{
    let y = year - 1;
    assert(year / 4 - y / 4 == if year % 4 == 0 {
        1int
    } else {
        0
    });
    assert(year / 100 - y / 100 == if year % 100 == 0 {
        1int
    } else {
        0
    });
    assert(year / 400 - y / 400 == if year % 400 == 0 {
        1int
    } else {
        0
    });
}

proof fn year_has_its_days(year: int)
    ensures
        day_number(year, 12, 31) + 1 == day_number(year + 1, 1, 1),
{
    months_of_a_year(year);
    leap_days(year);
    assert(days_before_month(year + 1, 1) == 0);
}

proof fn years_add_up(from: int, to: int)
    requires
        from <= to,
    ensures
        day_number(from, 1, 1) <= day_number(to, 1, 1),
    decreases to - from,
{
    if from < to {
        years_add_up(from, to - 1);
        year_has_its_days(to - 1);
        months_add_up(to - 1, 1, 12);
    }
}

/// Counting days keeps the order of dates: of two dates the later one is more days
/// after January 1, 1970.
pub proof fn days_order_dates(a: Date, b: Date)
    requires
        a.valid(),
        b.valid(),
        a.number() < b.number(),
    ensures
        a.days() < b.days(),
        date32(a) < date32(b),
{
    numbers_order_dates(a, b);
    days_are_bounded(a);
    days_are_bounded(b);
    if a.year == b.year {
        months_add_up(a.year as int, a.month as int, b.month as int);
    } else {
        months_add_up(a.year as int, a.month as int, 12);
        year_has_its_days(a.year as int);
        years_add_up(a.year + 1, b.year as int);
        months_add_up(b.year as int, 1, b.month as int);
    }
}

proof fn days_are_bounded(date: Date)
    requires
        date.valid(),
    ensures
        date32(date) == date.days() - day_number(1970, 1, 1),
{
    days_before_month_bound(date.year as int, date.month as int);
    assert(days_before_month(1970, 1) == 0);
}

/// January 1, 1970 is day 0, and each day of the calendar is one more than the day
/// before: within a month, from the last day of a month to the first of the next, and
/// from the last day of a year to the first of the next.
pub proof fn days_are_counted_one_by_one(date: Date)
    requires
        date.valid(),
    ensures
        date32(Date { year: 1970, month: 1, day: 1 }) == 0,
        date.day < days_in_month(date.year as int, date.month as int) ==> date32(
            Date { year: date.year, month: date.month, day: (date.day + 1) as u32 },
        ) == date32(date) + 1,
        date.month < 12 && date.day == days_in_month(date.year as int, date.month as int)
            ==> date32(Date { year: date.year, month: (date.month + 1) as u32, day: 1 })
            == date32(date) + 1,
        date.year < MAX_YEAR && date.month == 12 && date.day == 31 ==> date32(
            Date { year: (date.year + 1) as i32, month: 1, day: 1 },
        ) == date32(date) + 1,
{
    days_are_bounded(date);
    days_are_bounded(Date { year: 1970, month: 1, day: 1 });
    if date.day < days_in_month(date.year as int, date.month as int) {
        days_are_bounded(
            Date { year: date.year, month: date.month, day: (date.day + 1) as u32 },
        );
    } else if date.month < 12 {
        let next = Date { year: date.year, month: (date.month + 1) as u32, day: 1 };
        days_are_bounded(next);
        assert(days_before_month(date.year as int, date.month + 1) == days_before_month(
            date.year as int,
            date.month as int,
        ) + days_in_month(date.year as int, date.month as int));
    } else if date.year < MAX_YEAR {
        days_are_bounded(Date { year: (date.year + 1) as i32, month: 1, day: 1 });
        year_has_its_days(date.year as int);
    }
}

/// The months of a year have the days that the calendar gives them.
pub proof fn months_have_their_days(year: int)
    ensures
        days_in_month(year, 2) == 28 || days_in_month(year, 2) == 29,
        days_in_month(year, 2) == 29 <==> (year % 400 == 0 || (year % 4 == 0 && year % 100 != 0)),
        forall|m: int|
            1 <= m <= 12 && m != 2 ==> #[trigger] days_in_month(year, m) == (if m <= 7 {
                30 + m % 2
            } else {
                31 - m % 2
            }),
{
}

// ── Slot dates ───────────────────────────────────────────────────────────────

/// The date that a `YYYYMMDD` number names, if any: the number is the year's
/// multiple of 10000, plus the month's of 100, plus the day, also where the year is
/// negative.
pub open spec fn slot_date(value: int) -> Option<Date> {
    if is_calendar_day(value / 10_000, value / 100 % 100, value % 100) {
        Some(
            Date {
                year: (value / 10_000) as i32,
                month: (value / 100 % 100) as u32,
                day: (value % 100) as u32,
            },
        )
    } else {
        None
    }
}

/// Encodes `date` as `year * 10000 + month * 100 + day`. The number of a
/// date fits in an `i32` exactly for the years from -214748 to 214748: a date of
/// another year has no encoding.
pub fn encode_slot_date(date: Date) -> (r: i32)
    requires
        date.valid(),
        i32::MIN <= date.number() <= i32::MAX,
    ensures
        r == date.number(),
        slot_date(r as int) == Some(date),
{
    proof {
        decode_undoes_encode(date);
    }
    date.order_number() as i32
}

/// Decodes a date from its `YYYYMMDD` number, or gives `None` where the number is
/// not that of a day of the calendar.
pub fn decode_slot_date(value: i32) -> (r: Option<Date>)
    ensures
        r == slot_date(value as int),
{
    // Counted from a multiple of 10000 that is below every `i32`, so that division
    // rounds down.
    let raised: i64 = value as i64 + 2_147_490_000;
    let year: i32 = (raised / 10_000 - 214_749) as i32;
    let month: u32 = (raised / 100 % 100) as u32;
    let day: u32 = (raised % 100) as u32;
    proof {
        assert(raised / 10_000 - 214_749 == value as int / 10_000);
        assert(raised / 100 - 21_474_900 == value as int / 100);
        assert(raised / 100 % 100 == value as int / 100 % 100);
        assert(raised % 100 == value as int % 100);
    }
    if from_ymd_opt(year, month, day) {
        Some(Date { year, month, day })
    } else {
        None
    }
}

/// Decoding undoes encoding.
pub proof fn decode_undoes_encode(date: Date)
    requires
        date.valid(),
    ensures
        slot_date(date.number()) == Some(date),
{
    assert(date.number() / 10_000 == date.year);
    assert(date.number() / 100 == date.year * 100 + date.month);
    assert(date.number() % 100 == date.day);
}

/// Encoding undoes decoding: a number that decodes is the number of its date.
pub proof fn encode_undoes_decode(value: int)
    requires
        slot_date(value) is Some,
    ensures
        slot_date(value)->0.valid(),
        slot_date(value)->0.number() == value,
{
    assert(value == 10_000 * (value / 10_000) + 100 * (value / 100 % 100) + value % 100);
}

/// The numbers that stand for no date name none.
pub proof fn sentinels_name_no_date()
    ensures
        slot_date(-1) is None,
        slot_date(i32::MIN as int) is None,
{
}

/// A number names the date whose year, month and day are its digits: the last two are
/// the day, the two before them the month, and the rest the year.
pub proof fn digits_name_the_date(date: Date, value: int)
    ensures
        slot_date(value) == Some(date) <==> date.valid() && value == date.year * 10_000
            + date.month * 100 + date.day,
        date.number() == date.year * 10_000 + date.month * 100 + date.day,
{
    if date.valid() && value == date.year * 10_000 + date.month * 100 + date.day {
        decode_undoes_encode(date);
    }
    if slot_date(value) == Some(date) {
        encode_undoes_decode(value);
    }
}

} // verus!
