//! Laws that hold of every extraction.

use vstd::prelude::*;
use crate::array::NullableArray;
use crate::error::ExtractError;
use crate::fields::{extracted, Field, FieldOutput};
use crate::instant::{timestamp_instant, DecodedInstant, Decoder};
use crate::logical::LogicalType;
use crate::offset::offset_seconds;
use crate::outcome::{
    delivers, element_agrees, element_value, extraction, field_values, holds_each, resolved_zone,
    same_shape, value_at, Outcome,
};
use crate::timezone::{resolution, shifted, ZoneDatabase, ZoneView};
use crate::units::TimeUnit;

verus! {

/// An extraction that succeeds keeps the shape of its input: the output has
/// the input's length, and an element is present in it exactly where one is
/// present in the input.
pub proof fn lemma_extraction_keeps_shape<O: FieldOutput>(
    result: Result<NullableArray<O>, ExtractError>,
    field: Field,
    logical_type: LogicalType,
    raw: Seq<Option<int>>,
    zones: ZoneDatabase,
)
    requires
        delivers(result, extraction(field, logical_type, raw, zones)),
        result is Ok,
    ensures
        same_shape(result->Ok_0@, raw),
{
    let output = result->Ok_0@;
    let values = extraction(field, logical_type, raw, zones)->Values_0;
    assert forall|i: int| 0 <= i < raw.len() implies (#[trigger] output[i] is Some <==> raw[i]
        is Some) by {
        assert(values[i] is Some <==> raw[i] is Some);
    }
}

/// An extraction that succeeds holds, at every position, the value of the
/// field at that position of the input: every output element depends on the
/// input element at its own position and on no other.
pub proof fn lemma_extraction_is_elementwise<O: FieldOutput>(
    result: Result<NullableArray<O>, ExtractError>,
    field: Field,
    logical_type: LogicalType,
    raw: Seq<Option<int>>,
    zones: ZoneDatabase,
)
    requires
        delivers(result, extraction(field, logical_type, raw, zones)),
        result is Ok,
    ensures
        holds_each(result->Ok_0@, field, logical_type, zones, raw),
{
    let output = result->Ok_0@;
    let values = extraction(field, logical_type, raw, zones)->Values_0;
    assert forall|i: int| 0 <= i < raw.len() implies element_agrees(
        #[trigger] output[i],
        value_at(field, logical_type, zones, raw[i]),
    ) by {
        assert(values[i] == value_at(field, logical_type, zones, raw[i]));
    }
}

/// Chunks of one array extract independently: the outcome for two chunks put
/// end to end is the two chunks' values put end to end, or the failure of
/// the first chunk that fails.
pub proof fn lemma_chunks_extract_independently(
    field: Field,
    logical_type: LogicalType,
    first: Seq<Option<int>>,
    second: Seq<Option<int>>,
    zones: ZoneDatabase,
)
    ensures
        extraction(field, logical_type, first + second, zones) == match extraction(
            field,
            logical_type,
            first,
            zones,
        ) {
            Outcome::Values(head) => match extraction(field, logical_type, second, zones) {
                Outcome::Values(tail) => Outcome::Values(head + tail),
                failure => failure,
            },
            failure => failure,
        },
{
    let whole = first + second;
    let decoder = logical_type.decoder();
    let zone = resolved_zone(logical_type, zones);
    if logical_type.supports(field) && (logical_type.zone_identifier() is None || zone is Some) {
        assert(extraction(field, logical_type, whole, zones) == field_values(
            decoder,
            zone,
            field,
            whole,
        ));
        if field_values(decoder, zone, field, first) is OutOfRange {
            let i = choose|i: int|
                0 <= i < first.len() && #[trigger] first[i] is Some && element_value(
                    decoder,
                    zone,
                    field,
                    first[i]->0,
                ) is None;
            assert(whole[i] == first[i]);
            assert(whole[i] is Some);
        } else if field_values(decoder, zone, field, second) is OutOfRange {
            let i = choose|i: int|
                0 <= i < second.len() && #[trigger] second[i] is Some && element_value(
                    decoder,
                    zone,
                    field,
                    second[i]->0,
                ) is None;
            assert(whole[first.len() + i] == second[i]);
            assert(whole[first.len() + i] is Some);
        } else {
            assert forall|i: int| 0 <= i < whole.len() && #[trigger] whole[i] is Some implies element_value(
                decoder,
                zone,
                field,
                whole[i]->0,
            ) is Some by {
                if i < first.len() {
                    assert(whole[i] == first[i]);
                    assert(first[i] is Some);
                } else {
                    assert(whole[i] == second[i - first.len()]);
                    assert(second[i - first.len()] is Some);
                }
            }
            let head = field_values(decoder, zone, field, first)->Values_0;
            let tail = field_values(decoder, zone, field, second)->Values_0;
            let all = field_values(decoder, zone, field, whole)->Values_0;
            assert(all =~= head + tail);
        }
    }
}

/// A pure date has no clock and a pure time of day has no calendar: asking
/// an array of dates for a clock field, or an array of times of day for a
/// calendar field, comes to nothing but the lack of support, whatever the
/// array holds.
pub proof fn lemma_missing_component_is_unsupported(
    field: Field,
    logical_type: LogicalType,
    raw: Seq<Option<int>>,
    zones: ZoneDatabase,
)
    requires
        (logical_type is DateDays32 || logical_type is DateDays64) && !field.is_calendar() || (
        logical_type is TimeOfDay32 || logical_type is TimeOfDay64) && field.is_calendar(),
    ensures
        extraction(field, logical_type, raw, zones) == Outcome::Unsupported,
{
}

/// Without a zone database, a zoned timestamp whose identifier spells no
/// fixed offset comes to an unresolved zone for every field, and the
/// outcome carries the identifier; no element is looked at.
pub proof fn lemma_unrecognized_zone_without_database(
    field: Field,
    unit: TimeUnit,
    timezone: String,
    raw: Seq<Option<int>>,
)
    requires
        offset_seconds(timezone@) is None,
    ensures
        extraction(
            field,
            LogicalType::Timestamp { unit, timezone: Some(timezone) },
            raw,
            ZoneDatabase::Absent,
        ) == (Outcome::Unresolved { identifier: timezone@, database_available: false }),
{
}

/// A fixed offset resolves to itself whether or not a database is there.
pub proof fn lemma_fixed_offset_needs_no_database(identifier: Seq<char>)
    requires
        offset_seconds(identifier) is Some,
    ensures
        resolution(identifier, ZoneDatabase::Absent) == Some(
            ZoneView::Fixed(offset_seconds(identifier)->0),
        ),
        resolution(identifier, ZoneDatabase::Linked) == resolution(
            identifier,
            ZoneDatabase::Absent,
        ),
{
}

/// Two identifiers that differ in their sign alone spell equal and opposite
/// offsets, or neither spells one.
pub proof fn lemma_opposite_signs(east: Seq<char>, west: Seq<char>)
    requires
        east.len() == west.len(),
        east.len() > 0,
        east[0] == '+',
        west[0] == '-',
        forall|i: int| 1 <= i < east.len() ==> east[i] == west[i],
    ensures
        match offset_seconds(east) {
            Some(seconds) => offset_seconds(west) == Some(-seconds),
            None => offset_seconds(west) is None,
        },
{
}

/// Equal and opposite fixed offsets, applied to one UTC instant, give hours
/// that lie twice the offset apart on the 24-hour clock, where twice the
/// offset is a whole number of hours: ten hours apart for five hours east
/// and five hours west. No instant is out of range for the hour.
pub proof fn lemma_opposite_offsets_hours(unit: TimeUnit, raw: int, offset: int)
    requires
        i64::MIN <= raw <= i64::MAX,
        -86_400 < offset < 86_400,
        (2 * offset) % 3_600 == 0,
    ensures
        ({
            let decoder = Decoder::Timestamp(unit);
            let east = element_value(decoder, Some(ZoneView::Fixed(offset)), Field::Hour, raw);
            let west = element_value(decoder, Some(ZoneView::Fixed(-offset)), Field::Hour, raw);
            &&& east is Some
            &&& west is Some
            &&& (east->0 - west->0 - (2 * offset) / 3_600) % 24 == 0
        }),
{
    let utc = timestamp_instant(unit, raw);
    let second = utc.day_second();
    assert(0 <= second < 86_400);
    let west_second = (second - offset) % 86_400;
    let east_second = (second + offset) % 86_400;
    let turns = (2 * offset) / 3_600;
    assert(2 * offset == 3_600 * turns);
    assert(second + offset == (second - offset) + 3_600 * turns);
    let west_hour = west_second / 3_600;
    let rest = west_second % 3_600;
    assert(west_second == 3_600 * west_hour + rest);
    let wraps = (second - offset) / 86_400;
    assert(second - offset == 86_400 * wraps + west_second);
    assert(second + offset == 86_400 * wraps + 3_600 * (west_hour + turns) + rest);
    let east_hour = (west_hour + turns) % 24;
    let carry = (west_hour + turns) / 24;
    assert(west_hour + turns == 24 * carry + east_hour);
    assert(second + offset == 86_400 * (wraps + carry) + (3_600 * east_hour + rest));
    assert(east_second == 3_600 * east_hour + rest) by {
        vstd::arithmetic::div_mod::lemma_fundamental_div_mod_converse(
            second + offset,
            86_400,
            wraps + carry,
            3_600 * east_hour + rest,
        );
    }
    assert(east_second / 3_600 == east_hour);
}

/// Attaching an offset moves the instant by that many seconds and no more:
/// the local second stays within the day, and the local day is the next or
/// the one before exactly when the seconds cross midnight.
pub proof fn lemma_offset_rolls_the_date(days: int, second_of_day: int, nanos: int, offset: int)
    requires
        i64::MIN < days < i64::MAX,
        0 <= second_of_day < 86_400,
        0 <= nanos < 2_000_000_000,
        -86_400 < offset < 86_400,
    ensures
        ({
            let local = shifted(days, second_of_day, nanos, offset);
            &&& local.well_formed()
            &&& local.day_count() * 86_400 + local.day_second() == days * 86_400 + second_of_day
                + offset
            &&& local.subsecond() == nanos
            &&& local.day_count() == if second_of_day + offset < 0 {
                days - 1
            } else if second_of_day + offset >= 86_400 {
                days + 1
            } else {
                days
            }
        }),
{
}

/// The clock fields of an instant that has a time lie within their bounds,
/// and the nanosecond tells a leap second apart: it is below one billion for
/// an ordinary second, and from one billion to just below two for a leap
/// second.
pub proof fn lemma_clock_fields_in_bounds(field: Field, instant: DecodedInstant)
    requires
        !field.is_calendar(),
        instant.has_time(),
        instant.well_formed(),
    ensures
        extracted(field, instant) is Ok,
        field.in_bounds(extracted(field, instant)->Ok_0),
        field is Nanosecond && !instant.is_leap_second() ==> 0 <= extracted(field, instant)->Ok_0
            <= 999_999_999,
        field is Nanosecond && instant.is_leap_second() ==> 1_000_000_000 <= extracted(
            field,
            instant,
        )->Ok_0 <= 1_999_999_999,
{
}

/// The instant that a timestamp decodes to holds the whole count: its days,
/// seconds and fraction put together again give the count back.
pub proof fn lemma_timestamp_round_trip(unit: TimeUnit, raw: int)
    requires
        i64::MIN <= raw <= i64::MAX,
    ensures
        ({
            let instant = timestamp_instant(unit, raw);
            &&& instant.well_formed()
            &&& 0 <= instant.subsecond() < 1_000_000_000
            &&& instant.subsecond() % unit.nanos_per_unit() == 0
            &&& (instant.day_count() * 86_400 + instant.day_second()) * unit.units_per_second()
                + instant.subsecond() / unit.nanos_per_unit() == raw
        }),
{
    let per = unit.units_per_second();
    let scale = unit.nanos_per_unit();
    let seconds = raw / per;
    let fraction = raw % per;
    assert(raw == per * seconds + fraction) by {
        vstd::arithmetic::div_mod::lemma_fundamental_div_mod(raw, per);
    }
    assert(0 <= fraction * scale < 1_000_000_000 && (fraction * scale) % scale == 0 && (fraction
        * scale) / scale == fraction) by {
        match unit {
            TimeUnit::Second => {},
            TimeUnit::Millisecond => {},
            TimeUnit::Microsecond => {},
            TimeUnit::Nanosecond => {},
        }
    }
    assert((seconds / 86_400 * 86_400 + seconds % 86_400) * per + fraction == raw) by {
        assert(seconds / 86_400 * 86_400 + seconds % 86_400 == seconds);
        assert(seconds * per == per * seconds) by (nonlinear_arith);
    }
}

} // verus!
