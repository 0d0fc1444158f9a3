//! What an extraction comes to: the outcome that the contracts of the
//! temporal kernels are stated over.

use vstd::prelude::*;
use crate::array::NullableArray;
use crate::error::ExtractError;
use crate::fields::{extracted, Field, FieldOutput};
use crate::instant::Decoder;
use crate::logical::LogicalType;
use crate::timezone::{resolution, zoned, ResolvedTimezone, ZoneDatabase, ZoneView};

verus! {

/// The value of a field at one present element, or `None` where the
/// element's instant lies outside the calendar's range: a calendar field is
/// asked of a day that the calendar does not cover, or a named zone is to be
/// attached to one.
pub open spec fn element_value(decoder: Decoder, zone: Option<ZoneView>, field: Field, raw: int)
    -> Option<int> {
    let utc = decoder.decoded(raw);
    let local = match zone {
        Some(z) => zoned(z, utc.day_count(), utc.day_second(), utc.subsecond()),
        None => Some(utc),
    };
    match local {
        Some(instant) => match extracted(field, instant) {
            Ok(value) => Some(value),
            Err(_) => None,
        },
        None => None,
    }
}

/// What an extraction comes to.
pub enum Outcome {
    /// The field is not defined for the logical type.
    Unsupported,
    /// The zone identifier does not resolve; whether a database was there
    /// to ask.
    Unresolved { identifier: Seq<char>, database_available: bool },
    /// A present element lies outside the calendar's range.
    OutOfRange,
    /// The field's value for each present element, and `None` for each
    /// absent one.
    Values(Seq<Option<int>>),
}

/// The outcome once the field is known to be supported and the zone, if
/// any, is resolved: out of range where any present element is, and the
/// values element by element otherwise.
pub open spec fn field_values(
    decoder: Decoder,
    zone: Option<ZoneView>,
    field: Field,
    raw: Seq<Option<int>>,
) -> Outcome {
    if exists|i: int|
        0 <= i < raw.len() && #[trigger] raw[i] is Some && element_value(
            decoder,
            zone,
            field,
            raw[i]->0,
        ) is None {
        Outcome::OutOfRange
    } else {
        Outcome::Values(
            raw.map_values(
                |item: Option<int>|
                    match item {
                        Some(v) => element_value(decoder, zone, field, v),
                        None => None,
                    },
            ),
        )
    }
}

/// The outcome of extracting `field` from an array of `logical_type` that
/// stores `raw`, with the zone database as `zones` says.
///
/// Classification comes first, then the resolution of the zone, then the
/// elements: a failure of an earlier step is the outcome whatever the later
/// ones would give.
pub open spec fn extraction(
    field: Field,
    logical_type: LogicalType,
    raw: Seq<Option<int>>,
    zones: ZoneDatabase,
) -> Outcome {
    if !logical_type.supports(field) {
        Outcome::Unsupported
    } else {
        match logical_type.zone_identifier() {
            None => field_values(logical_type.decoder(), None, field, raw),
            Some(identifier) => match resolution(identifier, zones) {
                Some(zone) => field_values(logical_type.decoder(), Some(zone), field, raw),
                None => Outcome::Unresolved { identifier, database_available: zones is Linked },
            },
        }
    }
}

/// The zone that the elements of an array of `logical_type` are moved to:
/// the resolution of its zone identifier, or `None` where it has none or
/// the identifier does not resolve.
pub open spec fn resolved_zone(logical_type: LogicalType, zones: ZoneDatabase) -> Option<ZoneView> {
    match logical_type.zone_identifier() {
        Some(identifier) => resolution(identifier, zones),
        None => None,
    }
}

/// The value of a field at one position of an array: the value of the
/// element where one is present, and `None` where none is.
pub open spec fn value_at(
    field: Field,
    logical_type: LogicalType,
    zones: ZoneDatabase,
    item: Option<int>,
) -> Option<int> {
    match item {
        Some(raw) => element_value(
            logical_type.decoder(),
            resolved_zone(logical_type, zones),
            field,
            raw,
        ),
        None => None,
    }
}

/// Whether an output holds, at every position, the value of the field at
/// that position of the input.
pub open spec fn holds_each<O: FieldOutput>(
    output: Seq<Option<O>>,
    field: Field,
    logical_type: LogicalType,
    zones: ZoneDatabase,
    raw: Seq<Option<int>>,
) -> bool {
    &&& output.len() == raw.len()
    &&& forall|i: int|
        0 <= i < raw.len() ==> element_agrees(
            #[trigger] output[i],
            value_at(field, logical_type, zones, raw[i]),
        )
}

/// Whether an output holds the given values, position by position.
pub open spec fn holds_values<O: FieldOutput>(output: Seq<Option<O>>, values: Seq<Option<int>>)
    -> bool {
    &&& output.len() == values.len()
    &&& forall|i: int|
        0 <= i < values.len() ==> match #[trigger] values[i] {
            Some(v) => output[i] is Some && output[i]->0.as_int() == v,
            None => output[i] is None,
        }
}

/// Whether `result` is what `outcome` calls for: the array of the values,
/// or the error of its kind; for an unresolved zone, the error carries the
/// identifier and says whether a database was there.
pub open spec fn delivers<O: FieldOutput>(
    result: Result<NullableArray<O>, ExtractError>,
    outcome: Outcome,
) -> bool {
    match outcome {
        Outcome::Unsupported => result is Err && result->Err_0
            == ExtractError::UnsupportedLogicalType,
        Outcome::Unresolved { identifier, database_available } => result is Err && (
        result->Err_0 matches ExtractError::TimezoneResolutionFailure {
            identifier: carried,
            database_available: available,
        } && carried@ == identifier && available == database_available),
        Outcome::OutOfRange => result is Err && result->Err_0
            == ExtractError::NumericRangeViolation,
        Outcome::Values(values) => result is Ok && holds_values(result->Ok_0@, values),
    }
}

/// Whether a decoder's instants have the component that a field is read
/// from.
pub open spec fn decoder_defines(decoder: Decoder, field: Field) -> bool {
    match decoder {
        Decoder::DayCount | Decoder::DateMillis => field.is_calendar(),
        Decoder::Timestamp(_) => true,
        Decoder::TimeOfDay(_) => !field.is_calendar(),
    }
}

/// The range of a field's values over stored elements: the field's bounds,
/// and for nanoseconds the lower half of them, since no stored encoding
/// holds a leap second.
pub open spec fn stored_bounds(field: Field, value: int) -> bool {
    field.in_bounds(value) && (field is Nanosecond ==> value <= 999_999_999)
}

/// Whether an output has the shape of the raw input: the same length, and
/// an element present exactly where the input has one.
pub open spec fn same_shape<O>(output: Seq<Option<O>>, raw: Seq<Option<int>>) -> bool {
    &&& output.len() == raw.len()
    &&& forall|i: int| 0 <= i < raw.len() ==> (#[trigger] output[i] is Some <==> raw[i] is Some)
}

/// Whether every present element of an output lies between `low` and
/// `high`.
pub open spec fn all_within<O: FieldOutput>(output: Seq<Option<O>>, low: int, high: int) -> bool {
    forall|i: int|
        0 <= i < output.len() && #[trigger] output[i] is Some ==> low <= output[i]->0.as_int()
            <= high
}

/// Whether every present element of an output lies within the range of a
/// field's values over stored elements.
pub open spec fn all_in_bounds<O: FieldOutput>(output: Seq<Option<O>>, field: Field) -> bool {
    forall|i: int|
        0 <= i < output.len() && #[trigger] output[i] is Some ==> stored_bounds(
            field,
            output[i]->0.as_int(),
        )
}

/// Whether an element's output is what the element's value calls for.
pub open spec fn element_agrees<O: FieldOutput>(output: Option<O>, value: Option<int>) -> bool {
    match value {
        Some(v) => output is Some && output->0.as_int() == v,
        None => output is None,
    }
}

/// The view of a zone that may not be there.
pub open spec fn zone_view(zone: Option<&ResolvedTimezone>) -> Option<ZoneView> {
    match zone {
        Some(z) => Some(z@),
        None => None,
    }
}

} // verus!
