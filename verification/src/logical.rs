//! Logical types, and temporal arrays: raw integers stored with the logical
//! type that says how to read them.

use vstd::prelude::*;
use vstd::pervasive::unreached;
use crate::array::{integers32, integers64, NullableArray};
use crate::fields::Field;
use crate::instant::Decoder;
use crate::units::TimeUnit;

verus! {

/// How the raw integers of an array are to be read.
#[derive(Clone, Debug, PartialEq, Eq)]
pub enum LogicalType {
    /// Days since 1970-01-01, in 32 bits.
    DateDays32,
    /// Milliseconds since the epoch that stand for a date, in 64 bits.
    DateDays64,
    /// A count of `unit`s since the epoch, in 64 bits, with or without a
    /// zone identifier.
    Timestamp { unit: TimeUnit, timezone: Option<String> },
    /// A count of `unit`s since midnight, in 32 bits.
    TimeOfDay32 { unit: TimeUnit },
    /// A count of `unit`s since midnight, in 64 bits.
    TimeOfDay64 { unit: TimeUnit },
}

impl LogicalType {
    /// Whether the elements are stored in 32 bits; in 64 otherwise.
    pub open spec fn is_narrow(self) -> bool {
        self is DateDays32 || self is TimeOfDay32
    }

    /// Whether the elements are stored in 32 bits; in 64 otherwise.
    pub fn stored_narrow(&self) -> (narrow: bool)
        ensures
            narrow == self.is_narrow(),
    {
        match self {
            LogicalType::DateDays32 | LogicalType::TimeOfDay32 { .. } => true,
            _ => false,
        }
    }

    /// The zone identifier of a zoned timestamp.
    pub open spec fn zone_identifier(self) -> Option<Seq<char>> {
        match self {
            LogicalType::Timestamp { timezone: Some(identifier), .. } => Some(identifier@),
            _ => None,
        }
    }

    /// Whether a field is defined for arrays of this type: a date has the
    /// calendar fields, a time of day has the clock fields in the units of
    /// its width, and a timestamp has both.
    pub open spec fn supports(self, field: Field) -> bool {
        match self {
            LogicalType::DateDays32 | LogicalType::DateDays64 => field.is_calendar(),
            LogicalType::Timestamp { .. } => true,
            LogicalType::TimeOfDay32 { unit } => !field.is_calendar() && (unit is Second
                || unit is Millisecond),
            LogicalType::TimeOfDay64 { unit } => !field.is_calendar() && (unit is Microsecond
                || unit is Nanosecond),
        }
    }

    /// The decoder for the elements of an array of this type.
    pub open spec fn decoder(self) -> Decoder {
        match self {
            LogicalType::DateDays32 => Decoder::DayCount,
            LogicalType::DateDays64 => Decoder::DateMillis,
            LogicalType::Timestamp { unit, .. } => Decoder::Timestamp(unit),
            LogicalType::TimeOfDay32 { unit } => Decoder::TimeOfDay(unit),
            LogicalType::TimeOfDay64 { unit } => Decoder::TimeOfDay(unit),
        }
    }
}

/// The stored elements of a temporal array, in their physical width.
#[derive(Debug)]
pub enum PhysicalArray {
    Int32(NullableArray<i32>),
    Int64(NullableArray<i64>),
}

impl PhysicalArray {
    /// The elements as integers, whatever their width.
    pub open spec fn raw(self) -> Seq<Option<int>> {
        match self {
            PhysicalArray::Int32(values) => integers32(values@),
            PhysicalArray::Int64(values) => integers64(values@),
        }
    }
}

/// A nullable array of raw integers with the logical type that says how to
/// read them. The physical width always matches the logical type.
#[derive(Debug)]
pub struct TemporalArray {
    logical_type: LogicalType,
    data: PhysicalArray,
}

impl TemporalArray {
    #[verifier::type_invariant]
    spec fn width_matches(self) -> bool {
        self.logical_type.is_narrow() == (self.data is Int32)
    }

    /// The logical type.
    pub closed spec fn logical(&self) -> LogicalType {
        self.logical_type
    }

    /// The elements as integers.
    pub closed spec fn raw(&self) -> Seq<Option<int>> {
        self.data.raw()
    }

    /// Joins a logical type and stored elements; `None` where the width of
    /// the elements is not the one that the logical type implies.
    pub fn new(logical_type: LogicalType, data: PhysicalArray) -> (array: Option<Self>)
        ensures
            array is Some <==> logical_type.is_narrow() == (data is Int32),
            array is Some ==> array->0.logical() == logical_type && array->0.raw() == data.raw(),
    {
        let narrow: bool = logical_type.stored_narrow();
        let matches: bool = match &data {
            PhysicalArray::Int32(_) => narrow,
            PhysicalArray::Int64(_) => !narrow,
        };
        if matches {
            Some(TemporalArray { logical_type, data })
        } else {
            None
        }
    }

    /// The stored elements of an array whose logical type is 32 bits wide.
    pub fn narrow_values(&self) -> (values: &NullableArray<i32>)
        requires
            self.logical().is_narrow(),
        ensures
            integers32(values@) == self.raw(),
    {
        proof {
            use_type_invariant(self);
        }
        match &self.data {
            PhysicalArray::Int32(values) => values,
            _ => unreached(),
        }
    }

    /// The stored elements of an array whose logical type is 64 bits wide.
    pub fn wide_values(&self) -> (values: &NullableArray<i64>)
        requires
            !self.logical().is_narrow(),
        ensures
            integers64(values@) == self.raw(),
    {
        proof {
            use_type_invariant(self);
        }
        match &self.data {
            PhysicalArray::Int64(values) => values,
            _ => unreached(),
        }
    }

    /// The logical type.
    pub fn logical_type(&self) -> (logical_type: &LogicalType)
        ensures
            *logical_type == self.logical(),
    {
        &self.logical_type
    }

    /// Number of elements, absent ones included.
    pub fn len(&self) -> (n: usize)
        ensures
            n == self.raw().len(),
    {
        match &self.data {
            PhysicalArray::Int32(values) => values.len(),
            PhysicalArray::Int64(values) => values.len(),
        }
    }
}

} // verus!
