//! Time zones: resolving an identifier into a fixed offset or a named zone,
//! and attaching the zone to an instant given in UTC.

use std::str::FromStr;
use vstd::prelude::*;
use chrono::{DateTime, Offset, TimeZone};
use chrono_tz::Tz;
use crate::calendar::{day_in_calendar, MAX_EPOCH_DAY, MIN_EPOCH_DAY};
use crate::error::ExtractError;
use crate::instant::DecodedInstant;
use crate::offset::{offset_seconds, parse_offset};
use crate::units::floor_div_mod;

verus! {

/// Whether the database of named zones may be consulted.
#[derive(Clone, Copy, Debug, PartialEq, Eq, Structural)]
pub enum ZoneDatabase {
    /// No database: only fixed offsets resolve.
    Absent,
    /// The database is there: identifiers that are no fixed offset are
    /// looked up in it.
    Linked,
}

/// A zone identifier after resolution.
#[derive(Clone, Debug, PartialEq, Eq)]
pub enum ResolvedTimezone {
    /// A constant offset, in seconds east of UTC.
    FixedOffset(i32),
    /// A zone that the database knows under this identifier.
    NamedZone(String),
}

/// Whether the zone database knows a zone under this name.
pub uninterp spec fn zone_known(name: Seq<char>) -> bool;

/// The offset from UTC, in seconds east, that the zone database gives for a
/// named zone at an instant, counted in seconds since the epoch.
pub uninterp spec fn zone_offset_seconds(name: Seq<char>, utc_seconds: int) -> int;

/// A resolved zone as contracts see it.
pub enum ZoneView {
    /// A constant offset, in seconds east of UTC.
    Fixed(int),
    /// The zone that the database knows under this name.
    Named(Seq<char>),
}

impl ZoneView {
    /// A fixed offset is less than a day, either way; a named zone is one
    /// that the database knows.
    pub open spec fn well_formed(self) -> bool {
        match self {
            ZoneView::Fixed(offset) => -86_400 < offset < 86_400,
            ZoneView::Named(name) => zone_known(name),
        }
    }

    /// The offset that the zone applies at an instant, counted in seconds
    /// since the epoch.
    pub open spec fn offset_at(self, utc_seconds: int) -> int {
        match self {
            ZoneView::Fixed(offset) => offset,
            ZoneView::Named(name) => zone_offset_seconds(name, utc_seconds),
        }
    }
}

impl View for ResolvedTimezone {
    type V = ZoneView;

    open spec fn view(&self) -> ZoneView {
        match self {
            ResolvedTimezone::FixedOffset(offset) => ZoneView::Fixed(*offset as int),
            ResolvedTimezone::NamedZone(name) => ZoneView::Named(name@),
        }
    }
}

/// Calls chrono-tz's `Tz::from_str`.
///
/// Trusted: the call succeeds exactly for the names that `zone_known` holds
/// of; the set of names is fixed by the database that chrono-tz was built
/// from.
#[verifier::external_body]
fn zone_is_known(name: &str) -> (known: bool)
    ensures
        known == zone_known(name@),
{
    Tz::from_str(name).is_ok()
}

/// Calls chrono-tz's `Tz::from_str`, chrono's `DateTime::from_timestamp`,
/// chrono-tz's `TimeZone::offset_from_utc_datetime` for `Tz`, and chrono's
/// `Offset::fix` and `FixedOffset::local_minus_utc`.
///
/// Trusted: the offset that chrono-tz finds for the zone at the instant is
/// the one that `zone_offset_seconds` names, and it is less than a day
/// either way, as every `FixedOffset` is. Names that the database lacks, and
/// instants outside chrono's range, are excluded.
#[verifier::external_body]
fn zone_offset_at(name: &str, utc_seconds: i64) -> (offset: i32)
    requires
        zone_known(name@),
        MIN_EPOCH_DAY * 86_400 <= utc_seconds < (MAX_EPOCH_DAY + 1) * 86_400,
    ensures
        offset == zone_offset_seconds(name@, utc_seconds as int),
        -86_400 < offset < 86_400,
{
    let zone = Tz::from_str(name).expect("a zone that the database knows");
    let instant = DateTime::from_timestamp(utc_seconds, 0).expect("an instant within range");
    zone.offset_from_utc_datetime(&instant.naive_utc()).fix().local_minus_utc()
}

/// How an identifier resolves: as a fixed offset where it spells one;
/// otherwise as a named zone where the database is there and knows it;
/// otherwise not at all.
pub open spec fn resolution(identifier: Seq<char>, zones: ZoneDatabase) -> Option<ZoneView> {
    resolution_given(identifier, zones, zone_known(identifier))
}

/// How an identifier resolves when the database's answer is `known`.
pub open spec fn resolution_given(identifier: Seq<char>, zones: ZoneDatabase, known: bool)
    -> Option<ZoneView> {
    match offset_seconds(identifier) {
        Some(offset) => Some(ZoneView::Fixed(offset)),
        None => if zones is Linked && known {
            Some(ZoneView::Named(identifier))
        } else {
            None
        },
    }
}

/// Whether `error` is the failure to resolve `identifier` under `zones`: it
/// carries the identifier and says whether a database was there.
pub open spec fn is_resolution_failure(
    error: ExtractError,
    identifier: Seq<char>,
    zones: ZoneDatabase,
) -> bool {
    error matches ExtractError::TimezoneResolutionFailure { identifier: carried, database_available }
        && carried@ == identifier && database_available == (zones is Linked)
}

/// Whether `outcome` is what a resolution calls for: the zone, or the
/// failure to resolve the identifier.
pub open spec fn resolves_to(
    outcome: Result<ResolvedTimezone, ExtractError>,
    identifier: Seq<char>,
    zones: ZoneDatabase,
    expected: Option<ZoneView>,
) -> bool {
    match expected {
        Some(zone) => outcome is Ok && outcome->Ok_0@ == zone,
        None => outcome is Err && is_resolution_failure(outcome->Err_0, identifier, zones),
    }
}

/// Resolves an identifier, given the database's answer to whether it knows
/// a zone of that name. The answer is only read where the database is
/// linked and the identifier spells no fixed offset.
pub fn resolve_given(identifier: &str, zones: ZoneDatabase, known: bool) -> (outcome: Result<
    ResolvedTimezone,
    ExtractError,
>)
    ensures
        resolves_to(outcome, identifier@, zones, resolution_given(identifier@, zones, known)),
{
    match parse_offset(identifier) {
        Some(offset) => Ok(ResolvedTimezone::FixedOffset(offset)),
        None => match zones {
            ZoneDatabase::Linked => {
                if known {
                    Ok(ResolvedTimezone::NamedZone(identifier.to_owned()))
                } else {
                    Err(
                        ExtractError::TimezoneResolutionFailure {
                            identifier: identifier.to_owned(),
                            database_available: true,
                        },
                    )
                }
            },
            ZoneDatabase::Absent => Err(
                ExtractError::TimezoneResolutionFailure {
                    identifier: identifier.to_owned(),
                    database_available: false,
                },
            ),
        },
    }
}

/// Resolves a zone identifier.
///
/// An identifier that spells a fixed offset resolves to it, whatever the
/// database holds. Any other resolves to a named zone where the database is
/// linked and knows it, and fails otherwise; the failure carries the
/// identifier and says whether a database was there. The database is asked
/// at most once.
pub fn resolve(identifier: &str, zones: ZoneDatabase) -> (outcome: Result<
    ResolvedTimezone,
    ExtractError,
>)
    ensures
        resolves_to(outcome, identifier@, zones, resolution(identifier@, zones)),
        outcome is Ok ==> outcome->Ok_0@.well_formed(),
        zones is Absent && offset_seconds(identifier@) is None ==> outcome is Err,
{
    let ask: bool = match zones {
        ZoneDatabase::Linked => parse_offset(identifier).is_none(),
        ZoneDatabase::Absent => false,
    };
    let known: bool = if ask {
        zone_is_known(identifier)
    } else {
        false
    };
    resolve_given(identifier, zones, known)
}

/// The local instant at `offset` seconds east of a UTC instant: the seconds
/// move by the offset and the day moves with them where they cross
/// midnight.
pub open spec fn shifted(days: int, second_of_day: int, nanos: int, offset: int)
    -> DecodedInstant {
    DecodedInstant::Zoned {
        days: (days + (second_of_day + offset) / 86_400) as i64,
        second_of_day: ((second_of_day + offset) % 86_400) as u32,
        nanos: nanos as u32,
        offset: offset as i32,
    }
}

/// Attaches a fixed offset to an instant given in UTC.
pub fn attach_fixed_offset(days: i64, second_of_day: u32, nanos: u32, offset: i32) -> (local:
    DecodedInstant)
    requires
        i64::MIN < days < i64::MAX,
        second_of_day < 86_400,
        nanos < 2_000_000_000,
        -86_400 < offset < 86_400,
    ensures
        local == shifted(days as int, second_of_day as int, nanos as int, offset as int),
        local.well_formed(),
        local.day_count() * 86_400 + local.day_second() == days * 86_400 + second_of_day + offset,
        local.subsecond() == nanos,
{
    let moved: i64 = second_of_day as i64 + offset as i64;
    let (carry, local_second) = floor_div_mod(moved, 86_400);
    DecodedInstant::Zoned {
        days: days + carry,
        second_of_day: local_second as u32,
        nanos,
        offset,
    }
}

/// The instant that attaching a zone to a UTC instant gives; `None` where
/// the zone is a named one and the instant lies outside the calendar, where
/// the database cannot be asked.
pub open spec fn zoned(zone: ZoneView, days: int, second_of_day: int, nanos: int) -> Option<
    DecodedInstant,
> {
    if zone is Named && !day_in_calendar(days) {
        None
    } else {
        Some(
            shifted(days, second_of_day, nanos, zone.offset_at(days * 86_400 + second_of_day)),
        )
    }
}

/// Attaches a resolved zone to an instant given in UTC.
pub fn attach_zone(zone: &ResolvedTimezone, days: i64, second_of_day: u32, nanos: u32) -> (local:
    Option<DecodedInstant>)
    requires
        zone@.well_formed(),
        i64::MIN < days < i64::MAX,
        second_of_day < 86_400,
        nanos < 2_000_000_000,
    ensures
        local == zoned(zone@, days as int, second_of_day as int, nanos as int),
        local is Some ==> local->0.well_formed() && local->0 is Zoned && local->0.subsecond()
            == nanos,
{
    match zone {
        ResolvedTimezone::FixedOffset(offset) => Some(
            attach_fixed_offset(days, second_of_day, nanos, *offset),
        ),
        ResolvedTimezone::NamedZone(name) => {
            if MIN_EPOCH_DAY <= days && days <= MAX_EPOCH_DAY {
                let utc_seconds: i64 = days * 86_400 + second_of_day as i64;
                let offset: i32 = zone_offset_at(name.as_str(), utc_seconds);
                Some(attach_fixed_offset(days, second_of_day, nanos, offset))
            } else {
                None
            }
        },
    }
}

} // verus!
