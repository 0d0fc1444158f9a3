//! Calendar fields and their extraction from a decoded instant.

use vstd::prelude::*;
use crate::calendar::{
    civil_day, civil_iso_week, civil_month, civil_weekday, civil_year, day_in_calendar,
    day_of_month, i8_iso_week, i8_weekday, month_of_day, year_of_day, MAX_YEAR, MIN_YEAR,
};
use crate::error::ExtractError;
use crate::instant::DecodedInstant;

verus! {

/// One field of a civil instant.
#[derive(Clone, Copy, Debug, PartialEq, Eq, Structural)]
pub enum Field {
    Year,
    Month,
    Day,
    Weekday,
    IsoWeek,
    Hour,
    Minute,
    Second,
    Nanosecond,
}

impl Field {
    /// Whether the field is read from the date, not from the time of day.
    pub open spec fn is_calendar(self) -> bool {
        self is Year || self is Month || self is Day || self is Weekday || self is IsoWeek
    }

    /// Whether the field is read from the date, not from the time of day.
    pub fn on_calendar(self) -> (answer: bool)
        ensures
            answer == self.is_calendar(),
    {
        match self {
            Field::Year | Field::Month | Field::Day | Field::Weekday | Field::IsoWeek => true,
            _ => false,
        }
    }

    /// The range that the field's values lie in. The upper half of the
    /// nanosecond range denotes a leap second.
    pub open spec fn in_bounds(self, value: int) -> bool {
        match self {
            Field::Year => MIN_YEAR <= value <= MAX_YEAR,
            Field::Month => 1 <= value <= 12,
            Field::Day => 1 <= value <= 31,
            Field::Weekday => 1 <= value <= 7,
            Field::IsoWeek => 1 <= value <= 53,
            Field::Hour => 0 <= value <= 23,
            Field::Minute => 0 <= value <= 59,
            Field::Second => 0 <= value <= 59,
            Field::Nanosecond => 0 <= value <= 1_999_999_999,
        }
    }
}

/// An integer type that an output array can hold.
pub trait FieldOutput: Copy {
    /// Whether the type can hold a value.
    spec fn holds(value: int) -> bool;

    /// The value as an integer.
    spec fn as_int(self) -> int;

    /// Narrows a field value to this type.
    fn from_field(value: i32) -> (out: Self)
        requires
            Self::holds(value as int),
        ensures
            out.as_int() == value,
    ;

    /// What stands in the value buffer at an absent position: zero.
    fn filler() -> (out: Self)
        ensures
            out.as_int() == 0,
    ;
}

impl FieldOutput for i8 {
    open spec fn holds(value: int) -> bool {
        i8::MIN <= value <= i8::MAX
    }

    open spec fn as_int(self) -> int {
        self as int
    }

    fn from_field(value: i32) -> (out: Self) {
        value as i8
    }

    fn filler() -> (out: Self) {
        0
    }
}

impl FieldOutput for i32 {
    open spec fn holds(value: int) -> bool {
        i32::MIN <= value <= i32::MAX
    }

    open spec fn as_int(self) -> int {
        self as int
    }

    fn from_field(value: i32) -> (out: Self) {
        value
    }

    fn filler() -> (out: Self) {
        0
    }
}

/// A calendar field of a day count.
pub open spec fn calendar_value(field: Field, days: int) -> int {
    match field {
        Field::Year => civil_year(days),
        Field::Month => civil_month(days),
        Field::Day => civil_day(days),
        Field::Weekday => civil_weekday(days),
        _ => civil_iso_week(days),
    }
}

/// A clock field of a second of the day and a nanosecond count.
pub open spec fn clock_value(field: Field, second_of_day: int, nanos: int) -> int {
    match field {
        Field::Hour => second_of_day / 3_600,
        Field::Minute => (second_of_day / 60) % 60,
        Field::Second => second_of_day % 60,
        _ => nanos,
    }
}

/// Whether an instant has the component that a field is read from.
pub open spec fn field_defined(field: Field, instant: DecodedInstant) -> bool {
    if field.is_calendar() {
        instant.has_date()
    } else {
        instant.has_time()
    }
}

/// What extracting a field from an instant gives: the value, a range
/// violation where a calendar field is asked of a day that the calendar
/// does not cover, or no support where the instant lacks the component.
pub open spec fn extracted(field: Field, instant: DecodedInstant) -> Result<int, ExtractError> {
    if !field_defined(field, instant) {
        Err(ExtractError::UnsupportedLogicalType)
    } else if field.is_calendar() {
        if day_in_calendar(instant.day_count()) {
            Ok(calendar_value(field, instant.day_count()))
        } else {
            Err(ExtractError::NumericRangeViolation)
        }
    } else {
        Ok(clock_value(field, instant.day_second(), instant.subsecond()))
    }
}

/// The hour of the day, from 0 to 23.
pub fn hour_of(second_of_day: u32) -> (hour: i8)
    requires
        second_of_day < 86_400,
    ensures
        hour == second_of_day as int / 3_600,
        0 <= hour <= 23,
{
    (second_of_day / 3_600) as i8
}

/// The minute of the hour, from 0 to 59.
pub fn minute_of(second_of_day: u32) -> (minute: i8)
    requires
        second_of_day < 86_400,
    ensures
        minute == (second_of_day as int / 60) % 60,
        0 <= minute <= 59,
{
    ((second_of_day / 60) % 60) as i8
}

/// The second of the minute, from 0 to 59.
pub fn second_of(second_of_day: u32) -> (second: i8)
    requires
        second_of_day < 86_400,
    ensures
        second == second_of_day as int % 60,
        0 <= second <= 59,
{
    (second_of_day % 60) as i8
}

/// The nanoseconds since the start of the second. A leap second keeps its
/// encoding: its count is one billion or more.
pub fn nanosecond_of(nanos: u32) -> (nanosecond: i32)
    requires
        nanos < 2_000_000_000,
    ensures
        nanosecond == nanos,
        nanos < 1_000_000_000 ==> 0 <= nanosecond <= 999_999_999,
        nanos >= 1_000_000_000 ==> 1_000_000_000 <= nanosecond <= 1_999_999_999,
{
    nanos as i32
}

/// Reads a calendar field of a day count, or `None` where the calendar does
/// not reach.
pub fn calendar_field(field: Field, days: i64) -> (value: Option<i32>)
    requires
        field.is_calendar(),
    ensures
        value is Some <==> day_in_calendar(days as int),
        value is Some ==> value->0 == calendar_value(field, days as int) && field.in_bounds(
            value->0 as int,
        ),
{
    match field {
        Field::Year => year_of_day(days),
        Field::Month => widen(month_of_day(days)),
        Field::Day => widen(day_of_month(days)),
        Field::Weekday => widen(i8_weekday(days)),
        _ => widen(i8_iso_week(days)),
    }
}

fn widen(value: Option<i8>) -> (wide: Option<i32>)
    ensures
        wide is Some <==> value is Some,
        wide is Some ==> wide->0 == value->0,
{
    match value {
        Some(v) => Some(v as i32),
        None => None,
    }
}

/// Reads a clock field of a time of day.
pub fn clock_field(field: Field, second_of_day: u32, nanos: u32) -> (value: i32)
    requires
        !field.is_calendar(),
        second_of_day < 86_400,
        nanos < 2_000_000_000,
    ensures
        value == clock_value(field, second_of_day as int, nanos as int),
        field.in_bounds(value as int),
        field is Nanosecond && nanos < 1_000_000_000 ==> value <= 999_999_999,
        field is Nanosecond && nanos >= 1_000_000_000 ==> value >= 1_000_000_000,
{
    match field {
        Field::Hour => hour_of(second_of_day) as i32,
        Field::Minute => minute_of(second_of_day) as i32,
        Field::Second => second_of(second_of_day) as i32,
        _ => nanosecond_of(nanos),
    }
}

/// Extracts one field from a decoded instant.
///
/// A field whose component the instant lacks is not supported. A calendar
/// field of a day outside the calendar is a range violation. Every value
/// returned lies within the field's bounds, and a nanosecond value is one
/// billion or more exactly when the instant encodes a leap second.
pub fn extract(field: Field, instant: DecodedInstant) -> (value: Result<i32, ExtractError>)
    requires
        instant.well_formed(),
    ensures
        match value {
            Ok(v) => extracted(field, instant) == Ok::<int, ExtractError>(v as int),
            Err(e) => extracted(field, instant) == Err::<int, ExtractError>(e),
        },
        value is Ok ==> field.in_bounds(value->Ok_0 as int),
        value is Ok && field is Nanosecond ==> (value->Ok_0 >= 1_000_000_000
            <==> instant.is_leap_second()),
{
    if field.on_calendar() {
        let days: i64 = match instant {
            DecodedInstant::Date { days } => days,
            DecodedInstant::DateTime { days, .. } => days,
            DecodedInstant::Zoned { days, .. } => days,
            DecodedInstant::Time { .. } => {
                return Err(ExtractError::UnsupportedLogicalType);
            },
        };
        match calendar_field(field, days) {
            Some(v) => Ok(v),
            None => Err(ExtractError::NumericRangeViolation),
        }
    } else {
        let (second_of_day, nanos) = match instant {
            DecodedInstant::DateTime { second_of_day, nanos, .. } => (second_of_day, nanos),
            DecodedInstant::Time { second_of_day, nanos } => (second_of_day, nanos),
            DecodedInstant::Zoned { second_of_day, nanos, .. } => (second_of_day, nanos),
            DecodedInstant::Date { .. } => {
                return Err(ExtractError::UnsupportedLogicalType);
            },
        };
        Ok(clock_field(field, second_of_day, nanos))
    }
}

} // verus!
