//! Calendar dates, times of day and instants in UTC, in the proleptic
//! Gregorian calendar over the years -9999 to 9999.

use vstd::prelude::*;

verus! {

pub const MIN_YEAR: i32 = -9999;

pub const MAX_YEAR: i32 = 9999;

pub const SECONDS_PER_DAY: u32 = 86400;

pub open spec fn is_leap_year(year: int) -> bool {
    (year % 4 == 0 && year % 100 != 0) || year % 400 == 0
}

/// The number of days of a month (1 to 12) of a year.
pub open spec fn month_length(year: int, month: int) -> int {
    if month == 2 {
        if is_leap_year(year) {
            29
        } else {
            28
        }
    } else if month == 4 || month == 6 || month == 9 || month == 11 {
        30
    } else {
        31
    }
}

/// Relies on time::Month::length: the number of days of the month in the
/// given year of the proleptic Gregorian calendar.
#[verifier::external_body]
fn days_in_month(year: i32, month: u8) -> (r: u8)
    requires
        1 <= month <= 12,
    ensures
        r as int == month_length(year as int, month as int),
{
    time::Month::try_from(month).unwrap().length(year)
}

/// A calendar day.
#[derive(Clone, Copy, Debug, PartialEq, Eq, Structural)]
pub struct Date {
    pub year: i32,
    pub month: u8,
    pub day: u8,
}

impl Date {
    /// The fields name an existing day in the supported range of years.
    pub open spec fn wf(&self) -> bool {
        &&& MIN_YEAR <= self.year <= MAX_YEAR
        &&& 1 <= self.month <= 12
        &&& 1 <= self.day <= month_length(self.year as int, self.month as int)
    }

    /// The count of months from year 0 to the month of this date.
    pub open spec fn month_index(&self) -> int {
        self.year * 12 + self.month - 1
    }

    /// The last day that can be represented.
    pub open spec fn is_last(&self) -> bool {
        self.year == MAX_YEAR && self.month == 12 && self.day == 31
    }

    /// The day that follows this one.
    pub open spec fn spec_next_day(&self) -> Date {
        if self.day < month_length(self.year as int, self.month as int) {
            Date { year: self.year, month: self.month, day: (self.day + 1) as u8 }
        } else if self.month < 12 {
            Date { year: self.year, month: (self.month + 1) as u8, day: 1 }
        } else {
            Date { year: (self.year + 1) as i32, month: 1, day: 1 }
        }
    }

    /// The first day of the month after the month of this date.
    pub open spec fn spec_start_of_next_month(&self) -> Date {
        if self.month < 12 {
            Date { year: self.year, month: (self.month + 1) as u8, day: 1 }
        } else {
            Date { year: (self.year + 1) as i32, month: 1, day: 1 }
        }
    }

    /// Builds a date from its year, month (1 to 12) and day of the month;
    /// `None` when these name no day of the supported range.
    pub fn from_calendar_date(year: i32, month: u8, day: u8) -> (r: Option<Date>)
        ensures
            r.is_some() <==> (MIN_YEAR <= year <= MAX_YEAR && 1 <= month <= 12 && 1 <= day
                <= month_length(year as int, month as int)),
            r matches Some(d) ==> d.year == year && d.month == month && d.day == day && d.wf(),
    {
        if year < MIN_YEAR || year > MAX_YEAR || month < 1 || month > 12 || day < 1 {
            return None;
        }
        if day > days_in_month(year, month) {
            return None;
        }
        Some(Date { year, month, day })
    }

    /// The first day that can be represented: 1 January of -9999.
    pub fn min_value() -> (r: Date)
        ensures
            r.wf(),
            r.year == MIN_YEAR && r.month == 1 && r.day == 1,
    {
        Date { year: MIN_YEAR, month: 1, day: 1 }
    }


    /// The next day; `None` after the last day that can be represented.
    pub fn next_day(self) -> (r: Option<Date>)
        requires
            self.wf(),
        ensures
            r.is_none() <==> self.is_last(),
            r matches Some(d) ==> d == self.spec_next_day() && d.wf(),
    {
        if self.day < days_in_month(self.year, self.month) {
            Some(Date { year: self.year, month: self.month, day: self.day + 1 })
        } else if self.month < 12 {
            Some(Date { year: self.year, month: self.month + 1, day: 1 })
        } else if self.year < MAX_YEAR {
            Some(Date { year: self.year + 1, month: 1, day: 1 })
        } else {
            None
        }
    }

    pub open spec fn same_month_spec(&self, other: Date) -> bool {
        self.year == other.year && self.month == other.month
    }

    /// Whether the two dates fall in the same month of the same year.
    pub fn same_month(&self, other: &Date) -> (r: bool)
        ensures
            r == self.same_month_spec(*other),
    {
        self.year == other.year && self.month == other.month
    }

    /// The first day of the month `months` months after the month of this
    /// date; `None` when that month lies past the last representable year.
    pub fn start_of_month_after(&self, months: u64) -> (r: Option<Date>)
        requires
            self.wf(),
        ensures
            r.is_some() <==> self.month_index() + months <= MAX_YEAR * 12 + 11,
            r matches Some(d) ==> d.wf() && d.day == 1 && d.month_index() == self.month_index()
                + months,
    {
        // Months are counted from January of the first representable year,
        // so that every count is non-negative.
        let first: u64 = ((self.year as i64 - MIN_YEAR as i64) as u64) * 12 + (self.month as u64) - 1;
        let last: u64 = ((MAX_YEAR as i64 - MIN_YEAR as i64) as u64) * 12 + 11;
        if months > last - first {
            return None;
        }
        let index: u64 = first + months;
        let year: i64 = (index / 12) as i64 + MIN_YEAR as i64;
        let month: u64 = index % 12 + 1;
        Some(Date { year: year as i32, month: month as u8, day: 1 })
    }
}

/// The operation of moving a date to the first day of the following month.
pub trait StartOfNextMonthExt: Sized {
    spec fn valid_for_next_month(&self) -> bool;

    spec fn start_of_next_month_spec(&self) -> Self;

    fn start_of_next_month(self) -> (r: Self)
        requires
            self.valid_for_next_month(),
        ensures
            r == self.start_of_next_month_spec(),
    ;
}

impl StartOfNextMonthExt for Date {
    /// A valid date outside December of the last representable year.
    open spec fn valid_for_next_month(&self) -> bool {
        self.wf() && !(self.year == MAX_YEAR && self.month == 12)
    }

    open spec fn start_of_next_month_spec(&self) -> Date {
        self.spec_start_of_next_month()
    }

    /// Walks day by day to the first day of the next month.
    fn start_of_next_month(self) -> (r: Date) {
        let length = days_in_month(self.year, self.month);
        let mut cur = self;
        let mut day: u8 = self.day;
        while day <= length
            invariant
                self.wf(),
                !(self.year == MAX_YEAR && self.month == 12),
                length as int == month_length(self.year as int, self.month as int),
                self.day <= day <= length + 1,
                day <= length ==> cur == (Date { year: self.year, month: self.month, day }),
                day > length ==> cur == self.spec_start_of_next_month(),
            decreases length + 1 - day,
        {
            cur = cur.next_day().unwrap();
            day = day + 1;
        }
        cur
    }
}

/// A time of day, in whole seconds since midnight.
#[derive(Clone, Copy, Debug, PartialEq, Eq, Structural)]
pub struct TimeOfDay {
    pub seconds: u32,
}

impl TimeOfDay {
    pub open spec fn secs(&self) -> int {
        self.seconds as int
    }

    pub open spec fn wf(&self) -> bool {
        self.seconds < SECONDS_PER_DAY
    }

    /// `None` unless `hour < 24`, `minute < 60` and `second < 60`.
    pub fn from_hms(hour: u8, minute: u8, second: u8) -> (r: Option<TimeOfDay>)
        ensures
            r.is_some() <==> (hour < 24 && minute < 60 && second < 60),
            r matches Some(t) ==> t.wf() && t.secs() == hour * 3600 + minute * 60 + second,
    {
        if hour >= 24 || minute >= 60 || second >= 60 {
            return None;
        }
        Some(TimeOfDay { seconds: hour as u32 * 3600 + minute as u32 * 60 + second as u32 })
    }

    /// `None` unless `seconds` is less than a day.
    pub fn from_seconds(seconds: u32) -> (r: Option<TimeOfDay>)
        ensures
            r.is_some() <==> seconds < SECONDS_PER_DAY,
            r matches Some(t) ==> t.wf() && t.secs() == seconds,
    {
        if seconds >= SECONDS_PER_DAY {
            None
        } else {
            Some(TimeOfDay { seconds })
        }
    }

    pub fn midnight() -> (r: TimeOfDay)
        ensures
            r.wf() && r.secs() == 0,
    {
        TimeOfDay { seconds: 0 }
    }
}

/// An instant in UTC: a date and a time of day.
#[derive(Clone, Copy, Debug, PartialEq, Eq, Structural)]
pub struct UtcDateTime {
    pub date: Date,
    pub time: TimeOfDay,
}

impl UtcDateTime {
    pub open spec fn wf(&self) -> bool {
        self.date.wf() && self.time.wf()
    }

    pub fn new(date: Date, time: TimeOfDay) -> (r: UtcDateTime)
        ensures
            r.date == date && r.time == time,
    {
        UtcDateTime { date, time }
    }
}

} // verus!
