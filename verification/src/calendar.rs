//! Dates of the proleptic Gregorian calendar, as year, month and day.

use crate::chrono_date::is_naive_date;
use vstd::prelude::*;

verus! {

/// The earliest year that a [`CalendarDate`] can lie in.
pub const MIN_YEAR: i32 = -262_143;

/// The latest year that a [`CalendarDate`] can lie in.
pub const MAX_YEAR: i32 = 262_142;

/// Every fourth year is a leap year, except the centuries that four hundred
/// does not divide. Year 0 and the years before it follow the same rule.
pub open spec fn is_leap_year(year: int) -> bool {
    year % 4 == 0 && (year % 100 != 0 || year % 400 == 0)
}

/// The number of days of a month, for `month` from 1 to 12.
pub open spec fn days_in_month(year: int, month: int) -> int {
    if month == 2 {
        if is_leap_year(year) {
            29
        } else {
            28
        }
    } else if month == 4 || month == 6 || month == 9 || month == 11 {
        30
    } else {
        31
    }
}

/// Whether the calendar has a day `day` in month `month` of year `year`.
pub open spec fn is_calendar_date(year: int, month: int, day: int) -> bool {
    &&& 1 <= month <= 12
    &&& 1 <= day <= days_in_month(year, month)
}

/// The mathematical value of a date: the three numbers it is written with.
pub struct Ymd {
    pub year: int,
    pub month: int,
    pub day: int,
}

impl Ymd {
    /// A real day of the calendar, in a year that a [`CalendarDate`] can hold.
    pub open spec fn is_valid(self) -> bool {
        &&& MIN_YEAR <= self.year <= MAX_YEAR
        &&& is_calendar_date(self.year, self.month, self.day)
    }
}

/// One day of the calendar. A value of this type always is a real date:
/// there is no way to build the thirtieth of February.
#[derive(Clone, Copy, Debug, PartialEq, Eq, Hash)]
pub struct CalendarDate {
    year: i32,
    month: u32,
    day: u32,
}

impl View for CalendarDate {
    type V = Ymd;

    closed spec fn view(&self) -> Ymd {
        Ymd { year: self.year as int, month: self.month as int, day: self.day as int }
    }
}

impl CalendarDate {
    /// What holds of every value of the type.
    #[verifier::type_invariant]
    pub open spec fn is_real(self) -> bool {
        self@.is_valid()
    }

    /// The date with the given year, month and day, or `None` where the
    /// calendar has no such day or the year lies outside
    /// [`MIN_YEAR`]..=[`MAX_YEAR`].
    pub fn from_ymd(year: i32, month: u32, day: u32) -> (r: Option<CalendarDate>)
        ensures
            r.is_some() == (Ymd { year: year as int, month: month as int, day: day as int }).is_valid(),
            r matches Some(date) ==> date@ == (Ymd {
                year: year as int,
                month: month as int,
                day: day as int,
            }),
    {
        if is_naive_date(year, month, day) {
            Some(CalendarDate { year, month, day })
        } else {
            None
        }
    }

    /// A date is its three numbers and nothing more: two dates with the
    /// same value are the same date.
    pub proof fn lemma_same_value_same_date(self, other: CalendarDate)
        requires
            self@ == other@,
        ensures
            self == other,
    {
    }

    /// The date of three numbers that are known to name one.
    pub(crate) fn from_parts(year: i32, month: u32, day: u32) -> (date: CalendarDate)
        requires
            (Ymd { year: year as int, month: month as int, day: day as int }).is_valid(),
        ensures
            date@ == (Ymd { year: year as int, month: month as int, day: day as int }),
    {
        CalendarDate { year, month, day }
    }

    /// The year; 0 is the year before year 1.
    pub fn year(&self) -> (r: i32)
        ensures
            r == self@.year,
    {
        self.year
    }

    /// The month, from 1 to 12.
    pub fn month(&self) -> (r: u32)
        ensures
            r == self@.month,
            1 <= r <= 12,
    {
        proof {
            use_type_invariant(self);
        }
        self.month
    }

    /// The day of the month, from 1 to 31.
    pub fn day(&self) -> (r: u32)
        ensures
            r == self@.day,
            1 <= r <= 31,
    {
        proof {
            use_type_invariant(self);
        }
        self.day
    }
}

} // verus!
