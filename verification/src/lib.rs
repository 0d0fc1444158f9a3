//! Columnar kernels: the calendar fields of nullable arrays of dates,
//! timestamps and times of day, with the arrays, builders and file metadata
//! that go with them.

pub mod array;
pub mod builder;
pub mod calendar;
pub mod error;
pub mod fields;
pub mod instant;
pub mod laws;
pub mod logical;
pub mod metadata;
pub mod object;
pub mod offset;
pub mod outcome;
pub mod temporal;
pub mod timezone;
pub mod units;
