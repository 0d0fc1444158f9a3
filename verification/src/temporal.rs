//! Temporal kernels: one calendar field of every element of a temporal
//! array.

use vstd::prelude::*;
use vstd::pervasive::unreached;
use crate::array::{integers32, integers64, try_unary, unary, NullableArray};
use crate::error::ExtractError;
use crate::fields::{clock_field, extract, Field, FieldOutput};
use crate::instant::{time_to_time, DecodedInstant, Decoder};
use crate::laws::{lemma_extraction_is_elementwise, lemma_extraction_keeps_shape};
use crate::logical::{LogicalType, TemporalArray};
use crate::offset::{offset_seconds, parse_offset};
use crate::outcome::{
    all_in_bounds, all_within, decoder_defines, delivers, element_agrees, element_value,
    extraction, field_values, holds_each, same_shape, stored_bounds, zone_view, Outcome,
};
use crate::timezone::{
    attach_zone, is_resolution_failure, resolution, resolve, ResolvedTimezone, ZoneDatabase,
    ZoneView,
};
use crate::units::TimeUnit;

verus! {

/// One element: decodes it, attaches the zone if there is one, extracts the
/// field and narrows it to the output type. `None` is a range violation.
pub fn element<O: FieldOutput>(
    decoder: Decoder,
    zone: Option<&ResolvedTimezone>,
    field: Field,
    raw: i64,
) -> (output: Option<O>)
    requires
        decoder_defines(decoder, field),
        zone is Some ==> decoder is Timestamp && zone->0@.well_formed(),
        forall|v: int| field.in_bounds(v) ==> O::holds(v),
    ensures
        element_agrees(output, element_value(decoder, zone_view(zone), field, raw as int)),
        output is Some ==> stored_bounds(field, output->0.as_int()),
{
    let utc: DecodedInstant = decoder.decode(raw);
    let local: DecodedInstant = match zone {
        Some(z) => {
            match utc {
                DecodedInstant::DateTime { days, second_of_day, nanos } => {
                    match attach_zone(z, days, second_of_day, nanos) {
                        Some(local) => local,
                        None => {
                            return None;
                        },
                    }
                },
                _ => unreached(),
            }
        },
        None => utc,
    };
    match extract(field, local) {
        Ok(value) => Some(O::from_field(value)),
        Err(_) => None,
    }
}

/// Runs a fallible element operation over an array and turns a refusal into
/// a range violation.
fn collect<S: Copy, O: FieldOutput, F: Fn(S) -> Option<O>>(
    values: &NullableArray<S>,
    op: F,
    Ghost(value_of): Ghost<spec_fn(S) -> Option<int>>,
    Ghost(field): Ghost<Field>,
) -> (result: Result<NullableArray<O>, ExtractError>)
    requires
        forall|x: S| op.requires((x,)),
        forall|x: S, output: Option<O>|
            op.ensures((x,), output) ==> element_agrees(output, value_of(x)) && (output is Some
                ==> stored_bounds(field, output->0.as_int())),
    ensures
        match result {
            Ok(array) => {
                &&& array@.len() == values@.len()
                &&& forall|i: int|
                    0 <= i < values@.len() ==> match #[trigger] values@[i] {
                        Some(x) => value_of(x) is Some && array@[i] is Some
                            && array@[i]->0.as_int() == value_of(x)->0,
                        None => array@[i] is None,
                    }
                &&& all_in_bounds(array@, field)
            },
            Err(error) => {
                &&& error == ExtractError::NumericRangeViolation
                &&& exists|i: int|
                    0 <= i < values@.len() && #[trigger] values@[i] is Some && value_of(
                        values@[i]->0,
                    ) is None
            },
        },
{
    match try_unary(values, op, O::filler()) {
        Some(array) => {
            assert forall|i: int| 0 <= i < array@.len() && #[trigger] array@[i] is Some implies stored_bounds(
                field,
                array@[i]->0.as_int(),
            ) by {
                assert(values@[i] is Some);
            }
            Ok(array)
        },
        None => Err(ExtractError::NumericRangeViolation),
    }
}

/// What `collect` returns is what the field's values over the raw elements
/// call for, where `value_of` is the value of each stored element.
proof fn lemma_collected<S, O: FieldOutput>(
    stored: Seq<Option<S>>,
    raw: Seq<Option<int>>,
    value_of: spec_fn(S) -> Option<int>,
    decoder: Decoder,
    zone: Option<ZoneView>,
    field: Field,
    result: Result<NullableArray<O>, ExtractError>,
)
    requires
        raw.len() == stored.len(),
        forall|i: int|
            0 <= i < stored.len() ==> match #[trigger] stored[i] {
                Some(x) => raw[i] is Some && value_of(x) == element_value(
                    decoder,
                    zone,
                    field,
                    raw[i]->0,
                ),
                None => raw[i] is None,
            },
        match result {
            Ok(array) => {
                &&& array@.len() == stored.len()
                &&& forall|i: int|
                    0 <= i < stored.len() ==> match #[trigger] stored[i] {
                        Some(x) => value_of(x) is Some && array@[i] is Some
                            && array@[i]->0.as_int() == value_of(x)->0,
                        None => array@[i] is None,
                    }
            },
            Err(error) => {
                &&& error == ExtractError::NumericRangeViolation
                &&& exists|i: int|
                    0 <= i < stored.len() && #[trigger] stored[i] is Some && value_of(
                        stored[i]->0,
                    ) is None
            },
        },
    ensures
        delivers(result, field_values(decoder, zone, field, raw)),
{
    match result {
        Ok(array) => {
            assert forall|i: int| 0 <= i < raw.len() && #[trigger] raw[i] is Some implies element_value(
                decoder,
                zone,
                field,
                raw[i]->0,
            ) is Some by {
                assert(stored[i] is Some);
            }
            let values = field_values(decoder, zone, field, raw)->Values_0;
            assert forall|i: int| 0 <= i < values.len() implies match #[trigger] values[i] {
                Some(v) => array@[i] is Some && array@[i]->0.as_int() == v,
                None => array@[i] is None,
            } by {
                assert(stored[i] is Some <==> raw[i] is Some);
            }
        },
        Err(_) => {
            let i = choose|i: int|
                0 <= i < stored.len() && #[trigger] stored[i] is Some && value_of(stored[i]->0)
                    is None;
            assert(raw[i] is Some);
        },
    }
}

/// Extracts a field from every present element of a 32-bit array.
fn over_narrow<O: FieldOutput>(values: &NullableArray<i32>, decoder: Decoder, field: Field) -> (result:
    Result<NullableArray<O>, ExtractError>)
    requires
        decoder_defines(decoder, field),
        forall|v: int| field.in_bounds(v) ==> O::holds(v),
    ensures
        delivers(result, field_values(decoder, None, field, integers32(values@))),
        result is Ok ==> all_in_bounds(result->Ok_0@, field),
{
    let op = |x: i32| -> (output: Option<O>)
        ensures
            element_agrees(output, element_value(decoder, None, field, x as int)),
            output is Some ==> stored_bounds(field, output->0.as_int()),
        { element(decoder, None, field, x as i64) };
    let ghost value_of = |x: i32| element_value(decoder, None, field, x as int);
    let result = collect(values, op, Ghost(value_of), Ghost(field));
    proof {
        lemma_collected(values@, integers32(values@), value_of, decoder, None, field, result);
    }
    result
}

/// Extracts a field from every present element of a 64-bit array, after
/// attaching the zone if there is one.
fn over_wide<O: FieldOutput>(
    values: &NullableArray<i64>,
    decoder: Decoder,
    zone: Option<&ResolvedTimezone>,
    field: Field,
) -> (result: Result<NullableArray<O>, ExtractError>)
    requires
        decoder_defines(decoder, field),
        zone is Some ==> decoder is Timestamp && zone->0@.well_formed(),
        forall|v: int| field.in_bounds(v) ==> O::holds(v),
    ensures
        delivers(result, field_values(decoder, zone_view(zone), field, integers64(values@))),
        result is Ok ==> all_in_bounds(result->Ok_0@, field),
{
    let op = |x: i64| -> (output: Option<O>)
        ensures
            element_agrees(output, element_value(decoder, zone_view(zone), field, x as int)),
            output is Some ==> stored_bounds(field, output->0.as_int()),
        { element(decoder, zone, field, x) };
    let ghost value_of = |x: i64| element_value(decoder, zone_view(zone), field, x as int);
    let result = collect(values, op, Ghost(value_of), Ghost(field));
    proof {
        lemma_collected(
            values@,
            integers64(values@),
            value_of,
            decoder,
            zone_view(zone),
            field,
            result,
        );
    }
    result
}

/// Extracts a field from a zone-less array that holds dates: day counts,
/// date milliseconds or timestamps without a zone.
pub fn date_variants<O: FieldOutput>(array: &TemporalArray, field: Field) -> (result: Result<
    NullableArray<O>,
    ExtractError,
>)
    requires
        array.logical() is DateDays32 || array.logical() is DateDays64 || array.logical()
            is Timestamp,
        array.logical().zone_identifier() is None,
        array.logical().supports(field),
        forall|v: int| field.in_bounds(v) ==> O::holds(v),
    ensures
        delivers(result, field_values(array.logical().decoder(), None, field, array.raw())),
        result is Ok ==> all_in_bounds(result->Ok_0@, field),
{
    match array.logical_type() {
        LogicalType::DateDays32 => over_narrow(array.narrow_values(), Decoder::DayCount, field),
        LogicalType::DateDays64 => over_wide(array.wide_values(), Decoder::DateMillis, None, field),
        LogicalType::Timestamp { unit, .. } => over_wide(
            array.wide_values(),
            Decoder::Timestamp(*unit),
            None,
            field,
        ),
        _ => unreached(),
    }
}

/// One element of an array of times of day: decodes it, reads the clock
/// field and narrows it to the output type. No time of day is refused.
pub fn clock_element<O: FieldOutput>(unit: TimeUnit, field: Field, raw: i64) -> (output: O)
    requires
        !field.is_calendar(),
        forall|v: int| field.in_bounds(v) ==> O::holds(v),
    ensures
        element_value(Decoder::TimeOfDay(unit), None, field, raw as int) == Some(output.as_int()),
        stored_bounds(field, output.as_int()),
{
    match time_to_time(unit, raw) {
        DecodedInstant::Time { second_of_day, nanos } => O::from_field(
            clock_field(field, second_of_day, nanos),
        ),
        _ => unreached(),
    }
}

/// Reads a clock field of every present element of a 32-bit array of times
/// of day.
fn clocks_narrow<O: FieldOutput>(values: &NullableArray<i32>, unit: TimeUnit, field: Field) -> (result:
    Result<NullableArray<O>, ExtractError>)
    requires
        !field.is_calendar(),
        forall|v: int| field.in_bounds(v) ==> O::holds(v),
    ensures
        result is Ok,
        delivers(result, field_values(Decoder::TimeOfDay(unit), None, field, integers32(values@))),
        all_in_bounds(result->Ok_0@, field),
{
    let ghost decoder = Decoder::TimeOfDay(unit);
    let op = |x: i32| -> (output: O)
        ensures
            element_value(decoder, None, field, x as int) == Some(output.as_int()),
            stored_bounds(field, output.as_int()),
        { clock_element(unit, field, x as i64) };
    let output = unary(values, op, O::filler());
    let result = Ok(output);
    proof {
        assert forall|i: int| 0 <= i < output@.len() && #[trigger] output@[i] is Some implies stored_bounds(
            field,
            output@[i]->0.as_int(),
        ) by {
            assert(values@[i] is Some);
        }
        lemma_collected(
            values@,
            integers32(values@),
            |x: i32| element_value(decoder, None, field, x as int),
            decoder,
            None,
            field,
            result,
        );
    }
    result
}

/// Reads a clock field of every present element of a 64-bit array of times
/// of day.
fn clocks_wide<O: FieldOutput>(values: &NullableArray<i64>, unit: TimeUnit, field: Field) -> (result:
    Result<NullableArray<O>, ExtractError>)
    requires
        !field.is_calendar(),
        forall|v: int| field.in_bounds(v) ==> O::holds(v),
    ensures
        result is Ok,
        delivers(result, field_values(Decoder::TimeOfDay(unit), None, field, integers64(values@))),
        all_in_bounds(result->Ok_0@, field),
{
    let ghost decoder = Decoder::TimeOfDay(unit);
    let op = |x: i64| -> (output: O)
        ensures
            element_value(decoder, None, field, x as int) == Some(output.as_int()),
            stored_bounds(field, output.as_int()),
        { clock_element(unit, field, x) };
    let output = unary(values, op, O::filler());
    let result = Ok(output);
    proof {
        assert forall|i: int| 0 <= i < output@.len() && #[trigger] output@[i] is Some implies stored_bounds(
            field,
            output@[i]->0.as_int(),
        ) by {
            assert(values@[i] is Some);
        }
        lemma_collected(
            values@,
            integers64(values@),
            |x: i64| element_value(decoder, None, field, x as int),
            decoder,
            None,
            field,
            result,
        );
    }
    result
}

/// Extracts a clock field from an array of times of day. A 32-bit array is
/// read in seconds or milliseconds and a 64-bit one in microseconds or
/// nanoseconds; any other unit is not supported. Where the unit is
/// supported, every present element has a value.
pub fn time_variants<O: FieldOutput>(array: &TemporalArray, field: Field) -> (result: Result<
    NullableArray<O>,
    ExtractError,
>)
    requires
        array.logical() is TimeOfDay32 || array.logical() is TimeOfDay64,
        !field.is_calendar(),
        forall|v: int| field.in_bounds(v) ==> O::holds(v),
    ensures
        delivers(
            result,
            if array.logical().supports(field) {
                field_values(array.logical().decoder(), None, field, array.raw())
            } else {
                Outcome::Unsupported
            },
        ),
        array.logical().supports(field) ==> result is Ok,
        result is Ok ==> all_in_bounds(result->Ok_0@, field),
{
    match array.logical_type() {
        LogicalType::TimeOfDay32 { unit } => match unit {
            TimeUnit::Second | TimeUnit::Millisecond => clocks_narrow(
                array.narrow_values(),
                *unit,
                field,
            ),
            _ => Err(ExtractError::UnsupportedLogicalType),
        },
        LogicalType::TimeOfDay64 { unit } => match unit {
            TimeUnit::Microsecond | TimeUnit::Nanosecond => clocks_wide(
                array.wide_values(),
                *unit,
                field,
            ),
            _ => Err(ExtractError::UnsupportedLogicalType),
        },
        _ => unreached(),
    }
}

/// Extracts a field from the timestamps of a zoned array: each is decoded,
/// moved to the zone's local time and read there.
pub fn extract_impl<O: FieldOutput>(
    array: &NullableArray<i64>,
    time_unit: TimeUnit,
    timezone: &ResolvedTimezone,
    field: Field,
) -> (result: Result<NullableArray<O>, ExtractError>)
    requires
        timezone@.well_formed(),
        forall|v: int| field.in_bounds(v) ==> O::holds(v),
    ensures
        delivers(
            result,
            field_values(Decoder::Timestamp(time_unit), Some(timezone@), field, integers64(array@)),
        ),
        result is Ok ==> all_in_bounds(result->Ok_0@, field),
{
    over_wide(array, Decoder::Timestamp(time_unit), Some(timezone), field)
}

/// Extracts a field from the timestamps of an array whose zone identifier
/// is still to be resolved. Where it does not resolve, nothing is extracted
/// and the error carries the identifier.
pub fn chrono_tz<O: FieldOutput>(
    array: &NullableArray<i64>,
    time_unit: TimeUnit,
    timezone_str: &str,
    zones: ZoneDatabase,
    field: Field,
) -> (result: Result<NullableArray<O>, ExtractError>)
    requires
        forall|v: int| field.in_bounds(v) ==> O::holds(v),
    ensures
        delivers(
            result,
            match resolution(timezone_str@, zones) {
                Some(zone) => field_values(
                    Decoder::Timestamp(time_unit),
                    Some(zone),
                    field,
                    integers64(array@),
                ),
                None => Outcome::Unresolved {
                    identifier: timezone_str@,
                    database_available: zones is Linked,
                },
            },
        ),
        result is Ok ==> all_in_bounds(result->Ok_0@, field),
{
    match resolve(timezone_str, zones) {
        Ok(timezone) => extract_impl(array, time_unit, &timezone, field),
        Err(error) => Err(error),
    }
}

/// Extracts one field from every element of a temporal array.
///
/// The logical type is classified first: a field that it does not support
/// fails before anything else is looked at. For a zoned timestamp the zone
/// identifier is then resolved, once. Only then are the elements read; an
/// element outside the calendar's range fails the whole call. On success
/// the output has the length of the input, is absent exactly where the
/// input is, and holds at every other position the field of that element.
pub fn extract_field<O: FieldOutput>(array: &TemporalArray, zones: ZoneDatabase, field: Field) -> (result:
    Result<NullableArray<O>, ExtractError>)
    requires
        forall|v: int| field.in_bounds(v) ==> O::holds(v),
    ensures
        delivers(result, extraction(field, array.logical(), array.raw(), zones)),
        result is Ok ==> same_shape(result->Ok_0@, array.raw()),
        result is Ok ==> holds_each(result->Ok_0@, field, array.logical(), zones, array.raw()),
        result is Ok ==> all_in_bounds(result->Ok_0@, field),
        !array.logical().supports(field) ==> result is Err && result->Err_0
            == ExtractError::UnsupportedLogicalType,
        array.logical().zone_identifier() is Some && zones is Absent && offset_seconds(
            array.logical().zone_identifier()->0,
        ) is None ==> result is Err && is_resolution_failure(
            result->Err_0,
            array.logical().zone_identifier()->0,
            zones,
        ),
{
    let result = match array.logical_type() {
        LogicalType::DateDays32 | LogicalType::DateDays64 => {
            if field.on_calendar() {
                date_variants(array, field)
            } else {
                Err(ExtractError::UnsupportedLogicalType)
            }
        },
        LogicalType::Timestamp { timezone: None, .. } => date_variants(array, field),
        LogicalType::TimeOfDay32 { .. } | LogicalType::TimeOfDay64 { .. } => {
            if field.on_calendar() {
                Err(ExtractError::UnsupportedLogicalType)
            } else {
                time_variants(array, field)
            }
        },
        LogicalType::Timestamp { unit, timezone: Some(timezone_str) } => {
            let values = array.wide_values();
            match parse_offset(timezone_str.as_str()) {
                Some(offset) => extract_impl(
                    values,
                    *unit,
                    &ResolvedTimezone::FixedOffset(offset),
                    field,
                ),
                None => chrono_tz(values, *unit, timezone_str.as_str(), zones, field),
            }
        },
    };
    proof {
        if result is Ok {
            lemma_extraction_keeps_shape(result, field, array.logical(), array.raw(), zones);
            lemma_extraction_is_elementwise(result, field, array.logical(), array.raw(), zones);
        }
    }
    result
}

/// Extracts the years of a temporal array.
///
/// Value ranges from -262143 to 262142, the years that the calendar covers.
pub fn year(array: &TemporalArray, zones: ZoneDatabase) -> (result: Result<
    NullableArray<i32>,
    ExtractError,
>)
    ensures
        delivers(result, extraction(Field::Year, array.logical(), array.raw(), zones)),
        result is Ok ==> same_shape(result->Ok_0@, array.raw()),
        result is Ok ==> holds_each(
            result->Ok_0@,
            Field::Year,
            array.logical(),
            zones,
            array.raw(),
        ),
        result is Ok ==> all_within(result->Ok_0@, -262_143, 262_142),
        !array.logical().supports(Field::Year) ==> result is Err && result->Err_0
            == ExtractError::UnsupportedLogicalType,
        array.logical().zone_identifier() is Some && zones is Absent && offset_seconds(
            array.logical().zone_identifier()->0,
        ) is None ==> result is Err && is_resolution_failure(
            result->Err_0,
            array.logical().zone_identifier()->0,
            zones,
        ),
{
    extract_field(array, zones, Field::Year)
}

/// Extracts the months of a temporal array.
///
/// Value ranges from 1 to 12.
pub fn month(array: &TemporalArray, zones: ZoneDatabase) -> (result: Result<
    NullableArray<i8>,
    ExtractError,
>)
    ensures
        delivers(result, extraction(Field::Month, array.logical(), array.raw(), zones)),
        result is Ok ==> same_shape(result->Ok_0@, array.raw()),
        result is Ok ==> holds_each(
            result->Ok_0@,
            Field::Month,
            array.logical(),
            zones,
            array.raw(),
        ),
        result is Ok ==> all_within(result->Ok_0@, 1, 12),
        !array.logical().supports(Field::Month) ==> result is Err && result->Err_0
            == ExtractError::UnsupportedLogicalType,
        array.logical().zone_identifier() is Some && zones is Absent && offset_seconds(
            array.logical().zone_identifier()->0,
        ) is None ==> result is Err && is_resolution_failure(
            result->Err_0,
            array.logical().zone_identifier()->0,
            zones,
        ),
{
    extract_field(array, zones, Field::Month)
}

/// Extracts the days of the month of a temporal array.
///
/// Value ranges from 1 to 31; the last day depends on the month.
pub fn day(array: &TemporalArray, zones: ZoneDatabase) -> (result: Result<
    NullableArray<i8>,
    ExtractError,
>)
    ensures
        delivers(result, extraction(Field::Day, array.logical(), array.raw(), zones)),
        result is Ok ==> same_shape(result->Ok_0@, array.raw()),
        result is Ok ==> holds_each(
            result->Ok_0@,
            Field::Day,
            array.logical(),
            zones,
            array.raw(),
        ),
        result is Ok ==> all_within(result->Ok_0@, 1, 31),
        !array.logical().supports(Field::Day) ==> result is Err && result->Err_0
            == ExtractError::UnsupportedLogicalType,
        array.logical().zone_identifier() is Some && zones is Absent && offset_seconds(
            array.logical().zone_identifier()->0,
        ) is None ==> result is Err && is_resolution_failure(
            result->Err_0,
            array.logical().zone_identifier()->0,
            zones,
        ),
{
    extract_field(array, zones, Field::Day)
}

/// Extracts the weekdays of a temporal array.
///
/// Monday is 1, Tuesday is 2, ..., Sunday is 7.
pub fn weekday(array: &TemporalArray, zones: ZoneDatabase) -> (result: Result<
    NullableArray<i8>,
    ExtractError,
>)
    ensures
        delivers(result, extraction(Field::Weekday, array.logical(), array.raw(), zones)),
        result is Ok ==> same_shape(result->Ok_0@, array.raw()),
        result is Ok ==> holds_each(
            result->Ok_0@,
            Field::Weekday,
            array.logical(),
            zones,
            array.raw(),
        ),
        result is Ok ==> all_within(result->Ok_0@, 1, 7),
        !array.logical().supports(Field::Weekday) ==> result is Err && result->Err_0
            == ExtractError::UnsupportedLogicalType,
        array.logical().zone_identifier() is Some && zones is Absent && offset_seconds(
            array.logical().zone_identifier()->0,
        ) is None ==> result is Err && is_resolution_failure(
            result->Err_0,
            array.logical().zone_identifier()->0,
            zones,
        ),
{
    extract_field(array, zones, Field::Weekday)
}

/// Extracts the ISO weeks of a temporal array.
///
/// Value ranges from 1 to 53; the last week depends on the year.
pub fn iso_week(array: &TemporalArray, zones: ZoneDatabase) -> (result: Result<
    NullableArray<i8>,
    ExtractError,
>)
    ensures
        delivers(result, extraction(Field::IsoWeek, array.logical(), array.raw(), zones)),
        result is Ok ==> same_shape(result->Ok_0@, array.raw()),
        result is Ok ==> holds_each(
            result->Ok_0@,
            Field::IsoWeek,
            array.logical(),
            zones,
            array.raw(),
        ),
        result is Ok ==> all_within(result->Ok_0@, 1, 53),
        !array.logical().supports(Field::IsoWeek) ==> result is Err && result->Err_0
            == ExtractError::UnsupportedLogicalType,
        array.logical().zone_identifier() is Some && zones is Absent && offset_seconds(
            array.logical().zone_identifier()->0,
        ) is None ==> result is Err && is_resolution_failure(
            result->Err_0,
            array.logical().zone_identifier()->0,
            zones,
        ),
{
    extract_field(array, zones, Field::IsoWeek)
}

/// Extracts the hours of a temporal array.
///
/// Value ranges from 0 to 23. Timestamps and times of day have an hour;
/// dates do not.
pub fn hour(array: &TemporalArray, zones: ZoneDatabase) -> (result: Result<
    NullableArray<i8>,
    ExtractError,
>)
    ensures
        delivers(result, extraction(Field::Hour, array.logical(), array.raw(), zones)),
        result is Ok ==> same_shape(result->Ok_0@, array.raw()),
        result is Ok ==> holds_each(
            result->Ok_0@,
            Field::Hour,
            array.logical(),
            zones,
            array.raw(),
        ),
        result is Ok ==> all_within(result->Ok_0@, 0, 23),
        !array.logical().supports(Field::Hour) ==> result is Err && result->Err_0
            == ExtractError::UnsupportedLogicalType,
        array.logical().zone_identifier() is Some && zones is Absent && offset_seconds(
            array.logical().zone_identifier()->0,
        ) is None ==> result is Err && is_resolution_failure(
            result->Err_0,
            array.logical().zone_identifier()->0,
            zones,
        ),
{
    extract_field(array, zones, Field::Hour)
}

/// Extracts the minutes of a temporal array.
///
/// Value ranges from 0 to 59.
pub fn minute(array: &TemporalArray, zones: ZoneDatabase) -> (result: Result<
    NullableArray<i8>,
    ExtractError,
>)
    ensures
        delivers(result, extraction(Field::Minute, array.logical(), array.raw(), zones)),
        result is Ok ==> same_shape(result->Ok_0@, array.raw()),
        result is Ok ==> holds_each(
            result->Ok_0@,
            Field::Minute,
            array.logical(),
            zones,
            array.raw(),
        ),
        result is Ok ==> all_within(result->Ok_0@, 0, 59),
        !array.logical().supports(Field::Minute) ==> result is Err && result->Err_0
            == ExtractError::UnsupportedLogicalType,
        array.logical().zone_identifier() is Some && zones is Absent && offset_seconds(
            array.logical().zone_identifier()->0,
        ) is None ==> result is Err && is_resolution_failure(
            result->Err_0,
            array.logical().zone_identifier()->0,
            zones,
        ),
{
    extract_field(array, zones, Field::Minute)
}

/// Extracts the seconds of a temporal array.
///
/// Value ranges from 0 to 59.
pub fn second(array: &TemporalArray, zones: ZoneDatabase) -> (result: Result<
    NullableArray<i8>,
    ExtractError,
>)
    ensures
        delivers(result, extraction(Field::Second, array.logical(), array.raw(), zones)),
        result is Ok ==> same_shape(result->Ok_0@, array.raw()),
        result is Ok ==> holds_each(
            result->Ok_0@,
            Field::Second,
            array.logical(),
            zones,
            array.raw(),
        ),
        result is Ok ==> all_within(result->Ok_0@, 0, 59),
        !array.logical().supports(Field::Second) ==> result is Err && result->Err_0
            == ExtractError::UnsupportedLogicalType,
        array.logical().zone_identifier() is Some && zones is Absent && offset_seconds(
            array.logical().zone_identifier()->0,
        ) is None ==> result is Err && is_resolution_failure(
            result->Err_0,
            array.logical().zone_identifier()->0,
            zones,
        ),
{
    extract_field(array, zones, Field::Second)
}

/// Extracts the nanoseconds of a temporal array.
///
/// Value ranges from 0 to 999_999_999: the upper half of the field's range,
/// from 1_000_000_000 to 1_999_999_999, denotes a leap second, and no stored
/// count decodes to one.
pub fn nanosecond(array: &TemporalArray, zones: ZoneDatabase) -> (result: Result<
    NullableArray<i32>,
    ExtractError,
>)
    ensures
        delivers(result, extraction(Field::Nanosecond, array.logical(), array.raw(), zones)),
        result is Ok ==> same_shape(result->Ok_0@, array.raw()),
        result is Ok ==> holds_each(
            result->Ok_0@,
            Field::Nanosecond,
            array.logical(),
            zones,
            array.raw(),
        ),
        result is Ok ==> all_within(result->Ok_0@, 0, 999_999_999),
        !array.logical().supports(Field::Nanosecond) ==> result is Err && result->Err_0
            == ExtractError::UnsupportedLogicalType,
        array.logical().zone_identifier() is Some && zones is Absent && offset_seconds(
            array.logical().zone_identifier()->0,
        ) is None ==> result is Err && is_resolution_failure(
            result->Err_0,
            array.logical().zone_identifier()->0,
            zones,
        ),
{
    extract_field(array, zones, Field::Nanosecond)
}

} // verus!
