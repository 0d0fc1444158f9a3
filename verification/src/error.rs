//! The ways in which an extraction can fail.

use vstd::prelude::*;

verus! {

/// Why an extraction produced no array.
#[derive(Clone, Debug, PartialEq, Eq)]
pub enum ExtractError {
    /// The requested field is not defined for the array's logical type and
    /// unit.
    UnsupportedLogicalType,
    /// The zone identifier is no fixed offset and no zone that the database
    /// knows, or no database was there to ask.
    TimezoneResolutionFailure { identifier: String, database_available: bool },
    /// A present element lies outside the range in which the calendar is
    /// defined.
    NumericRangeViolation,
}

} // verus!
