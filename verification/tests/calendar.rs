use chrono::{Datelike, NaiveDate};
use date_codec::calendar::{MAX_YEAR, MIN_YEAR};
use date_codec::codec::is_dmy_shaped;
use date_codec::CalendarDate;

fn leap_year(year: i32) -> bool {
    year.rem_euclid(4) == 0 && (year.rem_euclid(100) != 0 || year.rem_euclid(400) == 0)
}

fn real_day(year: i32, month: u32, day: u32) -> bool {
    let length = match month {
        2 if leap_year(year) => 29,
        2 => 28,
        4 | 6 | 9 | 11 => 30,
        _ => 31,
    };
    1 <= month && month <= 12 && 1 <= day && day <= length
}

#[test]
fn from_ymd_keeps_the_three_numbers() {
    let d = CalendarDate::from_ymd(2024, 11, 15).unwrap();
    assert_eq!(d.year(), 2024);
    assert_eq!(d.month(), 11);
    assert_eq!(d.day(), 15);
    let d = CalendarDate::from_ymd(-44, 3, 15).unwrap();
    assert_eq!((d.year(), d.month(), d.day()), (-44, 3, 15));
}

#[test]
fn from_ymd_knows_the_leap_years() {
    assert!(CalendarDate::from_ymd(2024, 2, 29).is_some());
    assert!(CalendarDate::from_ymd(2023, 2, 29).is_none());
    assert!(CalendarDate::from_ymd(2000, 2, 29).is_some());
    assert!(CalendarDate::from_ymd(1900, 2, 29).is_none());
    assert!(CalendarDate::from_ymd(2100, 2, 29).is_none());
    assert!(CalendarDate::from_ymd(0, 2, 29).is_some());
    assert!(CalendarDate::from_ymd(-4, 2, 29).is_some());
    assert!(CalendarDate::from_ymd(-1, 2, 29).is_none());
    assert!(CalendarDate::from_ymd(-100, 2, 29).is_none());
    assert!(CalendarDate::from_ymd(-400, 2, 29).is_some());
}

#[test]
fn from_ymd_refuses_days_that_do_not_exist() {
    assert!(CalendarDate::from_ymd(2024, 2, 30).is_none());
    assert!(CalendarDate::from_ymd(2024, 4, 31).is_none());
    assert!(CalendarDate::from_ymd(2024, 1, 32).is_none());
    assert!(CalendarDate::from_ymd(2024, 1, 0).is_none());
    assert!(CalendarDate::from_ymd(2024, 0, 1).is_none());
    assert!(CalendarDate::from_ymd(2024, 13, 1).is_none());
    assert!(CalendarDate::from_ymd(2024, u32::MAX, 1).is_none());
    assert!(CalendarDate::from_ymd(2024, 1, u32::MAX).is_none());
}

#[test]
fn from_ymd_ends_with_the_first_and_the_last_year() {
    assert_eq!(MIN_YEAR, -262143);
    assert_eq!(MAX_YEAR, 262142);
    assert!(CalendarDate::from_ymd(MIN_YEAR, 1, 1).is_some());
    assert!(CalendarDate::from_ymd(MIN_YEAR - 1, 12, 31).is_none());
    assert!(CalendarDate::from_ymd(MAX_YEAR, 12, 31).is_some());
    assert!(CalendarDate::from_ymd(MAX_YEAR + 1, 1, 1).is_none());
    assert!(CalendarDate::from_ymd(400000, 1, 1).is_none());
    assert!(CalendarDate::from_ymd(-400000, 1, 1).is_none());
    assert!(CalendarDate::from_ymd(i32::MAX, 1, 1).is_none());
    assert!(CalendarDate::from_ymd(i32::MIN, 1, 1).is_none());
}

#[test]
fn from_ymd_follows_the_gregorian_rules() {
    let mut years: Vec<i32> = (-420..=420).collect();
    years.extend(1580..=2420);
    years.extend([MIN_YEAR, MIN_YEAR + 1, -10000, -9999, 9999, 10000, MAX_YEAR - 1, MAX_YEAR]);
    for year in years {
        for month in 0..=13 {
            for day in 0..=32 {
                let made = CalendarDate::from_ymd(year, month, day);
                assert_eq!(made.is_some(), real_day(year, month, day), "{year} {month} {day}");
            }
        }
    }
}

#[test]
fn calendar_dates_are_the_dates_of_chrono() {
    for year in [MIN_YEAR - 1, MIN_YEAR, -1, 0, 1, 1900, 2000, 2024, MAX_YEAR, MAX_YEAR + 1] {
        for month in 0..=13 {
            for day in 0..=32 {
                let ours = CalendarDate::from_ymd(year, month, day);
                let theirs = NaiveDate::from_ymd_opt(year, month, day);
                assert_eq!(
                    ours.map(|d| (d.year(), d.month(), d.day())),
                    theirs.map(|d| (d.year(), d.month(), d.day()))
                );
            }
        }
    }
}

#[test]
fn calendar_dates_compare_by_their_numbers() {
    let a = CalendarDate::from_ymd(2024, 11, 15).unwrap();
    let b = CalendarDate::from_ymd(2024, 11, 15).unwrap();
    let c = CalendarDate::from_ymd(2024, 11, 16).unwrap();
    assert_eq!(a, b);
    assert_ne!(a, c);
    let copy = a;
    assert_eq!(copy, a);
}

#[test]
fn shape_is_two_two_four_digits_between_dots() {
    assert!(is_dmy_shaped("15.11.2024"));
    assert!(is_dmy_shaped("00.00.0000"));
    assert!(is_dmy_shaped("99.99.9999"));
    assert!(is_dmy_shaped("31.02.2024"));
    assert!(!is_dmy_shaped("15-11-2024"));
    assert!(!is_dmy_shaped("1.1.2024"));
    assert!(!is_dmy_shaped("15.11.20244"));
    assert!(!is_dmy_shaped("15.11.202"));
    assert!(!is_dmy_shaped(""));
    assert!(!is_dmy_shaped("15.11.202x"));
    assert!(!is_dmy_shaped("x5.11.2024"));
    assert!(!is_dmy_shaped("15.11 2024"));
    assert!(!is_dmy_shaped("15.11.२०"));
    assert!(!is_dmy_shaped("ééééé"));
}
