//! The calls into chrono. Nothing here is proved: each function states what
//! chrono's source shows of the call it makes, over the numbers that go in
//! and the numbers and texts that come out. A `NaiveDate` itself never
//! leaves this module.

use crate::calendar::{is_calendar_date, MAX_YEAR, MIN_YEAR};
use crate::text::{dmy_text, has_dmy_shape, text_day, text_month, text_year};
use chrono::{Datelike, NaiveDate};
use vstd::prelude::*;

verus! {

/// `chrono::ParseError`, what chrono answers for a text that it could not
/// read as a date. Nothing is known of what it holds.
#[verifier::external_type_specification]
#[verifier::external_body]
pub struct ExParseError(chrono::ParseError);

/// `NaiveDate::from_ymd_opt`, asked only whether it yields a date. It does
/// for every day that the proleptic Gregorian calendar has in the years from
/// [`MIN_YEAR`] to [`MAX_YEAR`], and for nothing else.
#[verifier::external_body]
pub(crate) fn is_naive_date(year: i32, month: u32, day: u32) -> (r: bool)
    ensures
        r == (MIN_YEAR <= year <= MAX_YEAR && is_calendar_date(
            year as int,
            month as int,
            day as int,
        )),
{
    NaiveDate::from_ymd_opt(year, month, day).is_some()
}

/// `NaiveDate::format` with the pattern `%d.%m.%Y`, written out by
/// `to_string`, on the date that `NaiveDate::from_ymd_opt` makes of the
/// three numbers; `None` where it makes none. chrono writes day and month
/// with two digits each. It writes the year with four digits from 0 to 9999,
/// and every other year with its sign and at least four digits.
#[verifier::external_body]
pub(crate) fn format_dmy(year: i32, month: u32, day: u32) -> (r: Option<String>)
    ensures
        r.is_some() == (MIN_YEAR <= year <= MAX_YEAR && is_calendar_date(
            year as int,
            month as int,
            day as int,
        )),
        r matches Some(text) ==> text@ == dmy_text(year as int, month as int, day as int),
{
    let date = NaiveDate::from_ymd_opt(year, month, day)?;
    Some(date.format("%d.%m.%Y").to_string())
}

/// `NaiveDate::parse_from_str` with the pattern `%d.%m.%Y`, on a text of the
/// strict form only. There chrono reads the first two digits as the day, the
/// next two as the month and the last four as the year, and answers with the
/// date of these three numbers if the calendar has it, else with an error.
/// The date is handed on as the numbers that `Datelike::year`, `month` and
/// `day` give for it. On other texts chrono is more lenient than the strict
/// form (it skips blanks, takes a single digit and a signed year), so this
/// function is not for them.
#[verifier::external_body]
pub(crate) fn parse_dmy(text: &str) -> (r: Result<(i32, u32, u32), chrono::ParseError>)
    requires
        has_dmy_shape(text@),
    ensures
        r.is_ok() == is_calendar_date(text_year(text@), text_month(text@), text_day(text@)),
        r matches Ok(ymd) ==> {
            &&& ymd.0 == text_year(text@)
            &&& ymd.1 == text_month(text@)
            &&& ymd.2 == text_day(text@)
        },
{
    let date = NaiveDate::parse_from_str(text, "%d.%m.%Y")?;
    Ok((date.year(), date.month(), date.day()))
}

} // verus!
