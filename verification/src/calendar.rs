//! The calendar: days, months, weekdays and business days.
//!
//! A date is held as its day number in the proleptic Gregorian calendar,
//! with 1 January of the year 1 as day 1. That day is a Monday, and the
//! weekdays follow each other without a break, so the weekday of a date is
//! its day number counted in sevens. Day numbers of calendar dates come from
//! `chrono`.

use vstd::prelude::*;

verus! {

/// The first year that has calendar dates.
pub const MIN_YEAR: i32 = -262143;

/// The last year that has calendar dates.
pub const MAX_YEAR: i32 = 262142;

/// A date, as its day number.
#[derive(Debug, Clone, Copy, PartialEq, Eq, Structural)]
pub struct CalendarDate {
    /// The days since 31 December of the year 0: 1 January of the year 1 is
    /// day 1.
    pub days_from_ce: i32,
}

/// A day of the week.
#[derive(Debug, Clone, Copy, PartialEq, Eq, Structural)]
pub enum Weekday {
    Mon,
    Tue,
    Wed,
    Thu,
    Fri,
    Sat,
    Sun,
}

/// Whether `year` is a leap year: a multiple of 4 that is no multiple of
/// 100, or a multiple of 400.
pub open spec fn is_leap(year: int) -> bool {
    (year % 4 == 0 && year % 100 != 0) || year % 400 == 0
}

/// The number of days of a month.
pub open spec fn month_length(year: int, month: int) -> int {
    if month == 2 {
        if is_leap(year) {
            29
        } else {
            28
        }
    } else if month == 4 || month == 6 || month == 9 || month == 11 {
        30
    } else {
        31
    }
}

/// The number of days of a year that lie before the first of a month.
pub open spec fn days_before_month(year: int, month: int) -> int
    decreases month,
{
    if month <= 1 {
        0
    } else {
        days_before_month(year, month - 1) + month_length(year, month - 1)
    }
}

/// The number of days from 1 January of the year 1 to the last day before
/// `year`: 365 for each year, and one more for each leap year.
pub open spec fn days_before_year(year: int) -> int {
    365 * (year - 1) + (year - 1) / 4 - (year - 1) / 100 + (year - 1) / 400
}

/// Whether the calendar has this date.
pub open spec fn is_date(year: int, month: int, day: int) -> bool {
    &&& MIN_YEAR <= year <= MAX_YEAR
    &&& 1 <= month <= 12
    &&& 1 <= day <= month_length(year, month)
}

/// The day number of a calendar date.
pub open spec fn day_number(year: int, month: int, day: int) -> int {
    days_before_year(year) + days_before_month(year, month) + day
}

/// The weekday of a day number, counted from Monday as 0.
pub open spec fn weekday_index(days_from_ce: int) -> int {
    (days_from_ce - 1) % 7
}

/// Whether a day number falls on a Saturday or a Sunday.
pub open spec fn on_weekend(days_from_ce: int) -> bool {
    weekday_index(days_from_ce) >= 5
}

/// `NaiveDate::from_ymd_opt` and `Datelike::num_days_from_ce`: the day
/// number of a calendar date in the proleptic Gregorian calendar, counted
/// from 1 January of the year 1 as day 1; `None` where the calendar has no
/// such date or the year is out of `chrono`'s range.
#[verifier::external_body]
fn day_number_of(year: i32, month: u32, day: u32) -> (days: Option<i32>)
    ensures
        match days {
            Some(number) => is_date(year as int, month as int, day as int) && number == day_number(
                year as int,
                month as int,
                day as int,
            ),
            None => !is_date(year as int, month as int, day as int),
        },
{
    chrono::NaiveDate::from_ymd_opt(year, month, day).map(
        |date| chrono::Datelike::num_days_from_ce(&date),
    )
}

/// Whether `year` is a leap year.
pub fn is_leap_year(year: i32) -> (leap: bool)
    ensures
        leap == is_leap(year as int),
{
    (year % 4 == 0 && year % 100 != 0) || (year % 400 == 0)
}

/// The first of the month after `month`: its year and its month.
pub open spec fn month_after(year: int, month: int) -> (int, int) {
    if month == 12 {
        (year + 1, 1)
    } else {
        (year, month + 1)
    }
}

/// Before the first of December lie 334 days of the year, and one more in
/// a leap year.
proof fn lemma_days_before_december(year: int)
    ensures
        days_before_month(year, 12) == 334 + month_length(year, 2) - 28,
{
    let february = month_length(year, 2);
    assert(days_before_month(year, 1) == 0);
    assert(days_before_month(year, 2) == 31);
    assert(days_before_month(year, 3) == 31 + february);
    assert(days_before_month(year, 4) == 62 + february);
    assert(days_before_month(year, 5) == 92 + february);
    assert(days_before_month(year, 6) == 123 + february);
    assert(days_before_month(year, 7) == 153 + february);
    assert(days_before_month(year, 8) == 184 + february);
    assert(days_before_month(year, 9) == 215 + february);
    assert(days_before_month(year, 10) == 245 + february);
    assert(days_before_month(year, 11) == 276 + february);
    assert(days_before_month(year, 12) == 306 + february);
}

/// A year has 365 days, and one more where it is a leap year.
proof fn lemma_year_span(year: int)
    ensures
        days_before_year(year + 1) - days_before_year(year) == 337 + month_length(year, 2),
{
    assert(year / 4 - (year - 1) / 4 == if year % 4 == 0 {
        1int
    } else {
        0int
    });
    assert(year / 100 - (year - 1) / 100 == if year % 100 == 0 {
        1int
    } else {
        0int
    });
    assert(year / 400 - (year - 1) / 400 == if year % 400 == 0 {
        1int
    } else {
        0int
    });
    assert(year % 400 == 0 ==> year % 100 == 0);
    assert(year % 100 == 0 ==> year % 4 == 0);
}

/// From the first of a month to the first of the next are as many days as
/// the month has.
pub proof fn lemma_month_span(year: int, month: int)
    requires
        1 <= month <= 12,
    ensures
        day_number(month_after(year, month).0, month_after(year, month).1, 1) - day_number(
            year,
            month,
            1,
        ) == month_length(year, month),
{
    if month == 12 {
        lemma_days_before_december(year);
        lemma_year_span(year);
        assert(days_before_month(year + 1, 1) == 0);
    } else {
        assert(days_before_month(year, month + 1) == days_before_month(year, month)
            + month_length(year, month));
    }
}

/// The number of days of a month.
///
/// The month must be one of the twelve, and the first of the month after
/// it must be a date that the calendar has.
pub fn days_in_month(year: i32, month: u32) -> (days: u32)
    requires
        1 <= month <= 12,
        MIN_YEAR <= year <= MAX_YEAR,
        month == 12 ==> year < MAX_YEAR,
    ensures
        days == month_length(year as int, month as int),
{
    let (next_year, next_month): (i32, u32) = if month == 12 {
        (year + 1, 1)
    } else {
        (year, month + 1)
    };
    proof {
        lemma_month_span(year as int, month as int);
    }
    let first = day_number_of(year, month, 1).unwrap();
    let next = day_number_of(next_year, next_month, 1).unwrap();
    (next - first) as u32
}

impl CalendarDate {
    /// The date of a calendar day, where the calendar has it.
    pub fn from_ymd(year: i32, month: u32, day: u32) -> (date: Option<CalendarDate>)
        ensures
            match date {
                Some(found) => is_date(year as int, month as int, day as int)
                    && found.days_from_ce == day_number(year as int, month as int, day as int),
                None => !is_date(year as int, month as int, day as int),
            },
    {
        match day_number_of(year, month, day) {
            Some(days_from_ce) => Some(CalendarDate { days_from_ce }),
            None => None,
        }
    }

    /// The weekday of the date.
    pub open spec fn spec_weekday(&self) -> Weekday {
        weekday_at(weekday_index(self.days_from_ce as int))
    }

    /// The weekday of the date.
    pub fn weekday(&self) -> (weekday: Weekday)
        ensures
            weekday == self.spec_weekday(),
    {
        let index: i64 = ((self.days_from_ce as i64 - 1) % 7 + 7) % 7;
        assert(index == weekday_index(self.days_from_ce as int));
        if index == 0 {
            Weekday::Mon
        } else if index == 1 {
            Weekday::Tue
        } else if index == 2 {
            Weekday::Wed
        } else if index == 3 {
            Weekday::Thu
        } else if index == 4 {
            Weekday::Fri
        } else if index == 5 {
            Weekday::Sat
        } else {
            Weekday::Sun
        }
    }
}

/// The weekday with the index `index`, counted from Monday as 0.
pub open spec fn weekday_at(index: int) -> Weekday {
    if index == 0 {
        Weekday::Mon
    } else if index == 1 {
        Weekday::Tue
    } else if index == 2 {
        Weekday::Wed
    } else if index == 3 {
        Weekday::Thu
    } else if index == 4 {
        Weekday::Fri
    } else if index == 5 {
        Weekday::Sat
    } else {
        Weekday::Sun
    }
}

/// The dates of a month, from its first to its last.
///
/// The month must be one of the twelve, and the first of the month after
/// it must be a date that the calendar has.
pub fn get_month_dates(year: i32, month: u32) -> (dates: Vec<CalendarDate>)
    requires
        1 <= month <= 12,
        MIN_YEAR <= year <= MAX_YEAR,
        month == 12 ==> year < MAX_YEAR,
    ensures
        dates.len() == month_length(year as int, month as int),
        forall|i: int|
            0 <= i < dates.len() ==> (#[trigger] dates[i]).days_from_ce == day_number(
                year as int,
                month as int,
                i + 1,
            ),
{
    let days = days_in_month(year, month);
    let mut dates: Vec<CalendarDate> = Vec::new();
    let mut day: u32 = 1;
    while day <= days
        invariant
            1 <= day <= days + 1,
            days == month_length(year as int, month as int),
            MIN_YEAR <= year <= MAX_YEAR,
            1 <= month <= 12,
            dates.len() == day - 1,
            forall|i: int|
                0 <= i < dates.len() ==> (#[trigger] dates[i]).days_from_ce == day_number(
                    year as int,
                    month as int,
                    i + 1,
                ),
        decreases days + 1 - day,
    {
        match CalendarDate::from_ymd(year, month, day) {
            Some(date) => {
                dates.push(date);
            },
            None => {
                assert(false);
            },
        }
        day = day + 1;
    }
    dates
}

/// The English name of a weekday.
pub fn weekday_name(weekday: Weekday) -> (name: &'static str)
    ensures
        name@ == match weekday {
            Weekday::Mon => "Monday"@,
            Weekday::Tue => "Tuesday"@,
            Weekday::Wed => "Wednesday"@,
            Weekday::Thu => "Thursday"@,
            Weekday::Fri => "Friday"@,
            Weekday::Sat => "Saturday"@,
            Weekday::Sun => "Sunday"@,
        },
{
    match weekday {
        Weekday::Mon => "Monday",
        Weekday::Tue => "Tuesday",
        Weekday::Wed => "Wednesday",
        Weekday::Thu => "Thursday",
        Weekday::Fri => "Friday",
        Weekday::Sat => "Saturday",
        Weekday::Sun => "Sunday",
    }
}

/// The Thai name of a weekday.
pub fn weekday_name_th(weekday: Weekday) -> (name: &'static str)
    ensures
        name@ == match weekday {
            Weekday::Mon => "จันทร์"@,
            Weekday::Tue => "อังคาร"@,
            Weekday::Wed => "พุธ"@,
            Weekday::Thu => "พฤหัสบดี"@,
            Weekday::Fri => "ศุกร์"@,
            Weekday::Sat => "เสาร์"@,
            Weekday::Sun => "อาทิตย์"@,
        },
{
    match weekday {
        Weekday::Mon => "จันทร์",
        Weekday::Tue => "อังคาร",
        Weekday::Wed => "พุธ",
        Weekday::Thu => "พฤหัสบดี",
        Weekday::Fri => "ศุกร์",
        Weekday::Sat => "เสาร์",
        Weekday::Sun => "อาทิตย์",
    }
}

/// Whether the date falls on a Saturday or a Sunday.
pub fn is_weekend(date: &CalendarDate) -> (weekend: bool)
    ensures
        weekend == on_weekend(date.days_from_ce as int),
        weekend == (date.spec_weekday() == Weekday::Sat || date.spec_weekday() == Weekday::Sun),
{
    let index: i64 = ((date.days_from_ce as i64 - 1) % 7 + 7) % 7;
    assert(index == weekday_index(date.days_from_ce as int));
    index >= 5
}

/// Whether `day` is the first day after `from` that is no Saturday and no
/// Sunday.
pub open spec fn is_next_business_day(from: int, day: int) -> bool {
    &&& from < day
    &&& !on_weekend(day)
    &&& forall|between: int| from < between < day ==> #[trigger] on_weekend(between)
}

/// Whether `day` is the last day before `from` that is no Saturday and no
/// Sunday.
pub open spec fn is_previous_business_day(from: int, day: int) -> bool {
    &&& day < from
    &&& !on_weekend(day)
    &&& forall|between: int| day < between < from ==> #[trigger] on_weekend(between)
}

/// The first day after `date` that is no Saturday and no Sunday. It is at
/// most three days away.
pub fn next_business_day(date: CalendarDate) -> (next: CalendarDate)
    requires
        date.days_from_ce <= i32::MAX - 3,
    ensures
        is_next_business_day(date.days_from_ce as int, next.days_from_ce as int),
        next.days_from_ce <= date.days_from_ce + 3,
{
    let mut next = CalendarDate { days_from_ce: date.days_from_ce + 1 };
    while is_weekend(&next)
        invariant
            date.days_from_ce < next.days_from_ce <= date.days_from_ce + 3,
            date.days_from_ce <= i32::MAX - 3,
            forall|between: int|
                date.days_from_ce < between < next.days_from_ce ==> #[trigger] on_weekend(between),
            next.days_from_ce == date.days_from_ce + 3 ==> !on_weekend(next.days_from_ce as int),
        decreases date.days_from_ce + 3 - next.days_from_ce,
    {
        // of three days in a row, one is no Saturday and no Sunday
        assert(on_weekend(next.days_from_ce as int));
        assert(next.days_from_ce == date.days_from_ce + 2 ==> on_weekend(date.days_from_ce + 1));
        next = CalendarDate { days_from_ce: next.days_from_ce + 1 };
    }
    next
}

/// The last day before `date` that is no Saturday and no Sunday. It is at
/// most three days away.
pub fn previous_business_day(date: CalendarDate) -> (previous: CalendarDate)
    requires
        date.days_from_ce >= i32::MIN + 3,
    ensures
        is_previous_business_day(date.days_from_ce as int, previous.days_from_ce as int),
        previous.days_from_ce >= date.days_from_ce - 3,
{
    let mut previous = CalendarDate { days_from_ce: date.days_from_ce - 1 };
    while is_weekend(&previous)
        invariant
            date.days_from_ce - 3 <= previous.days_from_ce < date.days_from_ce,
            date.days_from_ce >= i32::MIN + 3,
            forall|between: int|
                previous.days_from_ce < between < date.days_from_ce ==> #[trigger] on_weekend(
                    between,
                ),
            previous.days_from_ce == date.days_from_ce - 3 ==> !on_weekend(
                previous.days_from_ce as int,
            ),
        decreases previous.days_from_ce - (date.days_from_ce - 3),
    {
        // of three days in a row, one is no Saturday and no Sunday
        assert(on_weekend(previous.days_from_ce as int));
        assert(previous.days_from_ce == date.days_from_ce - 2 ==> on_weekend(
            date.days_from_ce - 1,
        ));
        previous = CalendarDate { days_from_ce: previous.days_from_ce - 1 };
    }
    previous
}

/// How many of the days from `start` to `end`, both included, are no
/// Saturday and no Sunday.
pub open spec fn business_days(start: int, end: int) -> int
    decreases end - start + 1,
{
    if start > end {
        0
    } else {
        business_days(start, end - 1) + if on_weekend(end) {
            0int
        } else {
            1int
        }
    }
}

/// There are no more business days than days.
pub proof fn lemma_business_days_bound(start: int, end: int)
    ensures
        0 <= business_days(start, end),
        start <= end ==> business_days(start, end) <= end - start + 1,
        start > end ==> business_days(start, end) == 0,
    decreases end - start + 1,
{
    if start <= end {
        lemma_business_days_bound(start, end - 1);
    }
}

/// The number of business days from `start` to `end`, both included: none
/// where `end` lies before `start`.
///
/// The range must have fewer days than an `i32` counts.
pub fn count_business_days(start: CalendarDate, end: CalendarDate) -> (count: i32)
    requires
        end.days_from_ce - start.days_from_ce < i32::MAX,
    ensures
        count == business_days(start.days_from_ce as int, end.days_from_ce as int),
{
    let mut count: i32 = 0;
    let mut current: i64 = start.days_from_ce as i64;
    let last: i64 = end.days_from_ce as i64;
    while current <= last
        invariant
            start.days_from_ce <= current,
            current <= last + 1 || start.days_from_ce > last,
            start.days_from_ce > last ==> current == start.days_from_ce,
            last == end.days_from_ce,
            last - start.days_from_ce < i32::MAX,
            count == business_days(start.days_from_ce as int, current - 1),
        decreases last + 1 - current,
    {
        proof {
            lemma_business_days_bound(start.days_from_ce as int, current as int);
        }
        if !is_weekend(&CalendarDate { days_from_ce: current as i32 }) {
            count = count + 1;
        }
        current = current + 1;
    }
    proof {
        if start.days_from_ce > last {
            lemma_business_days_bound(start.days_from_ce as int, last as int);
        }
    }
    count
}

/// The days from `start` to `end`, both included and in their order: none
/// where `end` lies before `start`.
pub fn date_range(start: CalendarDate, end: CalendarDate) -> (dates: Vec<CalendarDate>)
    ensures
        start.days_from_ce <= end.days_from_ce ==> dates.len() == end.days_from_ce
            - start.days_from_ce + 1,
        start.days_from_ce > end.days_from_ce ==> dates.len() == 0,
        forall|i: int|
            0 <= i < dates.len() ==> (#[trigger] dates[i]).days_from_ce == start.days_from_ce + i,
{
    let mut dates: Vec<CalendarDate> = Vec::new();
    let mut current: i64 = start.days_from_ce as i64;
    let last: i64 = end.days_from_ce as i64;
    while current <= last
        invariant
            start.days_from_ce <= current,
            current <= last + 1 || start.days_from_ce > last,
            start.days_from_ce > last ==> current == start.days_from_ce,
            last == end.days_from_ce,
            dates.len() == current - start.days_from_ce,
            forall|i: int|
                0 <= i < dates.len() ==> (#[trigger] dates[i]).days_from_ce == start.days_from_ce
                    + i,
        decreases last + 1 - current,
    {
        dates.push(CalendarDate { days_from_ce: current as i32 });
        current = current + 1;
    }
    dates
}

/// Whether `date1` lies before `date2`.
pub fn is_date_before(date1: &CalendarDate, date2: &CalendarDate) -> (before: bool)
    ensures
        before == (date1.days_from_ce < date2.days_from_ce),
{
    date1.days_from_ce < date2.days_from_ce
}

/// Whether `date1` lies after `date2`.
pub fn is_date_after(date1: &CalendarDate, date2: &CalendarDate) -> (after: bool)
    ensures
        after == (date1.days_from_ce > date2.days_from_ce),
{
    date1.days_from_ce > date2.days_from_ce
}

/// Whether `date` lies from `start` to `end`, both included.
pub fn is_date_between(date: &CalendarDate, start: &CalendarDate, end: &CalendarDate) -> (between:
    bool)
    ensures
        between == (start.days_from_ce <= date.days_from_ce <= end.days_from_ce),
{
    date.days_from_ce >= start.days_from_ce && date.days_from_ce <= end.days_from_ce
}

/// A date and a time of day.
#[derive(Debug, Clone, Copy, PartialEq, Eq, Structural)]
pub struct CalendarDateTime {
    pub date: CalendarDate,
    /// The seconds since midnight, from 0 to 86399.
    pub seconds_from_midnight: u32,
    /// The nanoseconds since the last whole second; 1 000 000 000 and more
    /// within a leap second.
    pub nanosecond: u32,
}

/// A text that is no date.
#[derive(Debug, Clone)]
pub struct DateParseError {
    /// The parser's own message.
    pub message: String,
}

/// The day number that `NaiveDate::parse_from_str` reads from a text under
/// a format; `None` where it reports an error.
pub uninterp spec fn chrono_date(text: Seq<char>, format: Seq<char>) -> Option<int>;

/// The day number, the seconds since midnight and the nanoseconds that
/// `NaiveDateTime::parse_from_str` reads from a text under a format; `None`
/// where it reports an error.
pub uninterp spec fn chrono_datetime(text: Seq<char>, format: Seq<char>) -> Option<(int, int, int)>;

/// `NaiveDate::parse_from_str`, the date as its day number and the error as
/// its message.
#[verifier::external_body]
fn parse_date_with(text: &str, format: &str) -> (parsed: Result<i32, String>)
    ensures
        match parsed {
            Ok(days) => chrono_date(text@, format@) == Some(days as int),
            Err(_) => chrono_date(text@, format@) is None,
        },
{
    chrono::NaiveDate::parse_from_str(text, format).map(
        |date| chrono::Datelike::num_days_from_ce(&date),
    ).map_err(|error| error.to_string())
}

/// `NaiveDateTime::parse_from_str`, the moment as day number, seconds since
/// midnight and nanoseconds, and the error as its message.
#[verifier::external_body]
fn parse_datetime_with(text: &str, format: &str) -> (parsed: Result<(i32, u32, u32), String>)
    ensures
        match parsed {
            Ok(found) => chrono_datetime(text@, format@) == Some(
                (found.0 as int, found.1 as int, found.2 as int),
            ),
            Err(_) => chrono_datetime(text@, format@) is None,
        },
{
    chrono::NaiveDateTime::parse_from_str(text, format).map(
        |moment|
            (
                chrono::Datelike::num_days_from_ce(&moment),
                chrono::Timelike::num_seconds_from_midnight(&moment),
                chrono::Timelike::nanosecond(&moment),
            ),
    ).map_err(|error| error.to_string())
}

/// The date that a text of the form `year-month-day` states.
pub fn parse_date(date_str: &str) -> (parsed: Result<CalendarDate, DateParseError>)
    ensures
        match chrono_date(date_str@, "%Y-%m-%d"@) {
            Some(days) => parsed is Ok && parsed->Ok_0.days_from_ce == days,
            None => parsed is Err,
        },
{
    match parse_date_with(date_str, "%Y-%m-%d") {
        Ok(days_from_ce) => Ok(CalendarDate { days_from_ce }),
        Err(message) => Err(DateParseError { message }),
    }
}

/// The moment that a text of the form `year-month-day hour:minute:second`
/// states.
pub fn parse_datetime(datetime_str: &str) -> (parsed: Result<CalendarDateTime, DateParseError>)
    ensures
        match chrono_datetime(datetime_str@, "%Y-%m-%d %H:%M:%S"@) {
            Some(found) => parsed is Ok && parsed->Ok_0.date.days_from_ce == found.0
                && parsed->Ok_0.seconds_from_midnight == found.1 && parsed->Ok_0.nanosecond
                == found.2,
            None => parsed is Err,
        },
{
    match parse_datetime_with(datetime_str, "%Y-%m-%d %H:%M:%S") {
        Ok(found) => Ok(
            CalendarDateTime {
                date: CalendarDate { days_from_ce: found.0 },
                seconds_from_midnight: found.1,
                nanosecond: found.2,
            },
        ),
        Err(message) => Err(DateParseError { message }),
    }
}

} // verus!
