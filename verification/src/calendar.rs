//! The civil calendar: year, month, day, weekday and ISO week of a day
//! count, as chrono computes them.

use vstd::prelude::*;
use chrono::{Datelike, NaiveDate};

verus! {

/// The first day that the calendar covers, counted from 1970-01-01: the
/// first of January of the year -262143.
pub const MIN_EPOCH_DAY: i64 = -96_465_292;

/// The last day that the calendar covers, counted from 1970-01-01: the
/// thirty-first of December of the year 262142.
pub const MAX_EPOCH_DAY: i64 = 95_026_236;

/// The first year that the calendar covers.
pub const MIN_YEAR: i32 = -262_143;

/// The last year that the calendar covers.
pub const MAX_YEAR: i32 = 262_142;

/// Whether the calendar covers a day count.
pub open spec fn day_in_calendar(days: int) -> bool {
    MIN_EPOCH_DAY <= days <= MAX_EPOCH_DAY
}

/// The proleptic Gregorian year on which a day count falls.
pub uninterp spec fn civil_year(days: int) -> int;

/// The month of the year, from 1, on which a day count falls.
pub uninterp spec fn civil_month(days: int) -> int;

/// The day of the month, from 1, on which a day count falls.
pub uninterp spec fn civil_day(days: int) -> int;

/// The ISO weekday number of a day count: 1 for Monday through 7 for Sunday.
pub uninterp spec fn civil_weekday(days: int) -> int;

/// The ISO 8601 week of the year in which a day count falls.
pub uninterp spec fn civil_iso_week(days: int) -> int;

/// Calls `NaiveDate::from_epoch_days` and `Datelike::year`.
///
/// Trusted: the year that chrono reports for the day is the one that
/// `civil_year` names, and it lies between the first and the last year of
/// `NaiveDate`. Days outside `NaiveDate`'s range are excluded.
#[verifier::external_body]
fn year_of_epoch_day(days: i32) -> (year: i32)
    requires
        day_in_calendar(days as int),
    ensures
        year == civil_year(days as int),
        MIN_YEAR <= year <= MAX_YEAR,
{
    NaiveDate::from_epoch_days(days).expect("day within the calendar").year()
}

/// Calls `NaiveDate::from_epoch_days` and `Datelike::month`.
///
/// Trusted: the month that chrono reports is the one that `civil_month`
/// names, and it lies between 1 and 12, as chrono documents.
#[verifier::external_body]
fn month_of_epoch_day(days: i32) -> (month: u32)
    requires
        day_in_calendar(days as int),
    ensures
        month == civil_month(days as int),
        1 <= month <= 12,
{
    NaiveDate::from_epoch_days(days).expect("day within the calendar").month()
}

/// Calls `NaiveDate::from_epoch_days` and `Datelike::day`.
///
/// Trusted: the day of the month that chrono reports is the one that
/// `civil_day` names, and it lies between 1 and 31, as chrono documents.
#[verifier::external_body]
fn day_of_epoch_day(days: i32) -> (day: u32)
    requires
        day_in_calendar(days as int),
    ensures
        day == civil_day(days as int),
        1 <= day <= 31,
{
    NaiveDate::from_epoch_days(days).expect("day within the calendar").day()
}

/// Calls `NaiveDate::from_epoch_days`, `Datelike::weekday` and
/// `Weekday::number_from_monday`.
///
/// Trusted: the number that chrono reports is the one that `civil_weekday`
/// names, and it lies between 1, for Monday, and 7, for Sunday, as chrono
/// documents.
#[verifier::external_body]
fn weekday_of_epoch_day(days: i32) -> (weekday: u32)
    requires
        day_in_calendar(days as int),
    ensures
        weekday == civil_weekday(days as int),
        1 <= weekday <= 7,
{
    NaiveDate::from_epoch_days(days).expect("day within the calendar").weekday().number_from_monday()
}

/// Calls `NaiveDate::from_epoch_days`, `Datelike::iso_week` and
/// `IsoWeek::week`.
///
/// Trusted: the week that chrono reports is the one that `civil_iso_week`
/// names, and it lies between 1 and 53, as chrono documents.
#[verifier::external_body]
fn iso_week_of_epoch_day(days: i32) -> (week: u32)
    requires
        day_in_calendar(days as int),
    ensures
        week == civil_iso_week(days as int),
        1 <= week <= 53,
{
    NaiveDate::from_epoch_days(days).expect("day within the calendar").iso_week().week()
}

/// The year on which a day count falls, or `None` where the calendar does
/// not reach.
pub fn year_of_day(days: i64) -> (year: Option<i32>)
    ensures
        year is Some <==> day_in_calendar(days as int),
        year is Some ==> year->0 == civil_year(days as int) && MIN_YEAR <= year->0 <= MAX_YEAR,
{
    if MIN_EPOCH_DAY <= days && days <= MAX_EPOCH_DAY {
        Some(year_of_epoch_day(days as i32))
    } else {
        None
    }
}

/// The month, from 1 to 12, on which a day count falls, or `None` where the
/// calendar does not reach.
pub fn month_of_day(days: i64) -> (month: Option<i8>)
    ensures
        month is Some <==> day_in_calendar(days as int),
        month is Some ==> month->0 == civil_month(days as int) && 1 <= month->0 <= 12,
{
    if MIN_EPOCH_DAY <= days && days <= MAX_EPOCH_DAY {
        Some(month_of_epoch_day(days as i32) as i8)
    } else {
        None
    }
}

/// The day of the month, from 1 to 31, on which a day count falls, or `None`
/// where the calendar does not reach.
pub fn day_of_month(days: i64) -> (day: Option<i8>)
    ensures
        day is Some <==> day_in_calendar(days as int),
        day is Some ==> day->0 == civil_day(days as int) && 1 <= day->0 <= 31,
{
    if MIN_EPOCH_DAY <= days && days <= MAX_EPOCH_DAY {
        Some(day_of_epoch_day(days as i32) as i8)
    } else {
        None
    }
}

/// The weekday of a day count, 1 for Monday through 7 for Sunday, or `None`
/// where the calendar does not reach.
pub fn i8_weekday(days: i64) -> (weekday: Option<i8>)
    ensures
        weekday is Some <==> day_in_calendar(days as int),
        weekday is Some ==> weekday->0 == civil_weekday(days as int) && 1 <= weekday->0 <= 7,
{
    if MIN_EPOCH_DAY <= days && days <= MAX_EPOCH_DAY {
        Some(weekday_of_epoch_day(days as i32) as i8)
    } else {
        None
    }
}

/// The ISO week, from 1 to 53, in which a day count falls, or `None` where
/// the calendar does not reach.
pub fn i8_iso_week(days: i64) -> (week: Option<i8>)
    ensures
        week is Some <==> day_in_calendar(days as int),
        week is Some ==> week->0 == civil_iso_week(days as int) && 1 <= week->0 <= 53,
{
    if MIN_EPOCH_DAY <= days && days <= MAX_EPOCH_DAY {
        Some(iso_week_of_epoch_day(days as i32) as i8)
    } else {
        None
    }
}

} // verus!
