//! Decoded instants and the decoders that produce them from raw counts.

use vstd::prelude::*;
use crate::units::{floor_div_mod, TimeUnit};

verus! {

/// A civil instant decoded from one raw element.
///
/// Days count from 1970-01-01, seconds from midnight, nanoseconds from the
/// start of the second. A nanosecond count of one billion or more marks a
/// leap second. A zoned instant holds local fields and the offset, in seconds
/// east of UTC, that produced them.
#[derive(Clone, Copy, Debug, PartialEq, Eq, Structural)]
pub enum DecodedInstant {
    Date { days: i64 },
    DateTime { days: i64, second_of_day: u32, nanos: u32 },
    Time { second_of_day: u32, nanos: u32 },
    Zoned { days: i64, second_of_day: u32, nanos: u32, offset: i32 },
}

/// Whether a second of the day and a nanosecond count are within their
/// ranges.
pub open spec fn clock_in_range(second_of_day: u32, nanos: u32) -> bool {
    second_of_day < 86_400 && nanos < 2_000_000_000
}

impl DecodedInstant {
    /// Whether every component is within its range.
    pub open spec fn well_formed(self) -> bool {
        match self {
            DecodedInstant::Date { .. } => true,
            DecodedInstant::DateTime { second_of_day, nanos, .. } => clock_in_range(
                second_of_day,
                nanos,
            ),
            DecodedInstant::Time { second_of_day, nanos } => clock_in_range(second_of_day, nanos),
            DecodedInstant::Zoned { second_of_day, nanos, offset, .. } => clock_in_range(
                second_of_day,
                nanos,
            ) && -86_400 < offset < 86_400,
        }
    }

    /// Whether the instant has a calendar date.
    pub open spec fn has_date(self) -> bool {
        !(self is Time)
    }

    /// Whether the instant has a time of day.
    pub open spec fn has_time(self) -> bool {
        !(self is Date)
    }

    /// The day count, for an instant that has a date.
    pub open spec fn day_count(self) -> int {
        match self {
            DecodedInstant::Date { days } => days as int,
            DecodedInstant::DateTime { days, .. } => days as int,
            DecodedInstant::Zoned { days, .. } => days as int,
            DecodedInstant::Time { .. } => 0,
        }
    }

    /// The second of the day, for an instant that has a time.
    pub open spec fn day_second(self) -> int {
        match self {
            DecodedInstant::DateTime { second_of_day, .. } => second_of_day as int,
            DecodedInstant::Time { second_of_day, .. } => second_of_day as int,
            DecodedInstant::Zoned { second_of_day, .. } => second_of_day as int,
            DecodedInstant::Date { .. } => 0,
        }
    }

    /// The nanoseconds since the start of the second, for an instant that
    /// has a time.
    pub open spec fn subsecond(self) -> int {
        match self {
            DecodedInstant::DateTime { nanos, .. } => nanos as int,
            DecodedInstant::Time { nanos, .. } => nanos as int,
            DecodedInstant::Zoned { nanos, .. } => nanos as int,
            DecodedInstant::Date { .. } => 0,
        }
    }

    /// Whether the instant encodes a leap second.
    pub open spec fn is_leap_second(self) -> bool {
        self.has_time() && self.subsecond() >= 1_000_000_000
    }
}

/// The date on which a count of milliseconds since the epoch falls; counts
/// before the epoch fall on the days before it.
pub fn date64_to_date(value: i64) -> (instant: DecodedInstant)
    ensures
        instant == (DecodedInstant::Date { days: (value as int / 86_400_000) as i64 }),
{
    let (days, _) = floor_div_mod(value, 86_400_000);
    DecodedInstant::Date { days }
}

/// The instant that a count of `unit`s since the epoch stands for.
///
/// The count splits by floor division: whole seconds round toward negative
/// infinity and the fraction of a second is never negative. The whole seconds
/// split into days and a second of the day in the same way.
pub open spec fn timestamp_instant(unit: TimeUnit, value: int) -> DecodedInstant {
    let seconds = value / unit.units_per_second();
    let fraction = value % unit.units_per_second();
    DecodedInstant::DateTime {
        days: (seconds / 86_400) as i64,
        second_of_day: (seconds % 86_400) as u32,
        nanos: (fraction * unit.nanos_per_unit()) as u32,
    }
}

/// Decodes a count of `unit`s since 1970-01-01 00:00:00 UTC.
pub fn timestamp_to_datetime(unit: TimeUnit, value: i64) -> (instant: DecodedInstant)
    ensures
        instant == timestamp_instant(unit, value as int),
        instant.well_formed(),
        !instant.is_leap_second(),
        instant.day_count() * 86_400 + instant.day_second() == value as int
            / unit.units_per_second(),
{
    let (seconds, fraction) = floor_div_mod(value, unit.per_second());
    let (days, second_of_day) = floor_div_mod(seconds, 86_400);
    let scale: i64 = unit.nanos();
    assert(0 <= fraction * scale < 1_000_000_000) by (nonlinear_arith)
        requires
            0 <= fraction < unit.units_per_second(),
            scale > 0,
            unit.units_per_second() * scale == 1_000_000_000,
    ;
    let nanos: i64 = fraction * scale;
    DecodedInstant::DateTime { days, second_of_day: second_of_day as u32, nanos: nanos as u32 }
}

/// The time of day that a count of `unit`s since midnight stands for, wrapped
/// into one day: counts of a day or more, and negative counts, are taken
/// modulo the length of a day.
pub open spec fn time_of_day_instant(unit: TimeUnit, value: int) -> DecodedInstant {
    let in_day = value % (86_400 * unit.units_per_second());
    DecodedInstant::Time {
        second_of_day: (in_day / unit.units_per_second()) as u32,
        nanos: ((in_day % unit.units_per_second()) * unit.nanos_per_unit()) as u32,
    }
}

/// Decodes a count of `unit`s since midnight.
pub fn time_to_time(unit: TimeUnit, value: i64) -> (instant: DecodedInstant)
    ensures
        instant == time_of_day_instant(unit, value as int),
        instant.well_formed(),
        !instant.is_leap_second(),
{
    let per_second: i64 = unit.per_second();
    let (_, in_day) = floor_div_mod(value, 86_400 * per_second);
    let (second_of_day, fraction) = floor_div_mod(in_day, per_second);
    let scale: i64 = unit.nanos();
    assert(0 <= fraction * scale < 1_000_000_000) by (nonlinear_arith)
        requires
            0 <= fraction < unit.units_per_second(),
            scale > 0,
            unit.units_per_second() * scale == 1_000_000_000,
    ;
    assert(0 <= second_of_day < 86_400) by (nonlinear_arith)
        requires
            0 <= in_day < 86_400 * per_second,
            per_second > 0,
            per_second * second_of_day + fraction == in_day,
            0 <= fraction < per_second,
    ;
    let nanos: i64 = fraction * scale;
    DecodedInstant::Time { second_of_day: second_of_day as u32, nanos: nanos as u32 }
}

/// How a raw element is turned into an instant.
#[derive(Clone, Copy, Debug, PartialEq, Eq, Structural)]
pub enum Decoder {
    /// A count of days since 1970-01-01.
    DayCount,
    /// A count of milliseconds since the epoch, read as a date.
    DateMillis,
    /// A count of units since the epoch.
    Timestamp(TimeUnit),
    /// A count of units since midnight.
    TimeOfDay(TimeUnit),
}

impl Decoder {
    /// The instant that a raw element decodes to.
    pub open spec fn decoded(self, raw: int) -> DecodedInstant {
        match self {
            Decoder::DayCount => DecodedInstant::Date { days: raw as i64 },
            Decoder::DateMillis => DecodedInstant::Date { days: (raw / 86_400_000) as i64 },
            Decoder::Timestamp(unit) => timestamp_instant(unit, raw),
            Decoder::TimeOfDay(unit) => time_of_day_instant(unit, raw),
        }
    }

    /// Decodes one raw element. A day count is taken as it is; the other
    /// encodings split by floor division.
    pub fn decode(self, raw: i64) -> (instant: DecodedInstant)
        ensures
            instant == self.decoded(raw as int),
            instant.well_formed(),
            !instant.is_leap_second(),
            self is Timestamp ==> instant is DateTime && -106_751_991_167_301
                <= instant.day_count() <= 106_751_991_167_300,
            self is TimeOfDay ==> instant is Time,
            self is DayCount || self is DateMillis ==> instant is Date,
    {
        match self {
            Decoder::DayCount => DecodedInstant::Date { days: raw },
            Decoder::DateMillis => date64_to_date(raw),
            Decoder::Timestamp(unit) => timestamp_to_datetime(unit, raw),
            Decoder::TimeOfDay(unit) => time_to_time(unit, raw),
        }
    }
}

} // verus!
