use temporal_kernels::array::NullableArray;
use temporal_kernels::error::ExtractError;
use temporal_kernels::logical::{LogicalType, PhysicalArray, TemporalArray};
use temporal_kernels::temporal::{
    day, hour, iso_week, minute, month, nanosecond, second, weekday, year,
};
use temporal_kernels::timezone::ZoneDatabase;
use temporal_kernels::units::TimeUnit;

fn date32(items: Vec<Option<i32>>) -> TemporalArray {
    let data = PhysicalArray::Int32(NullableArray::from_options(&items, 0));
    TemporalArray::new(LogicalType::DateDays32, data).unwrap()
}

fn date64(items: Vec<Option<i64>>) -> TemporalArray {
    let data = PhysicalArray::Int64(NullableArray::from_options(&items, 0));
    TemporalArray::new(LogicalType::DateDays64, data).unwrap()
}

fn timestamp(unit: TimeUnit, zone: Option<&str>, items: Vec<Option<i64>>) -> TemporalArray {
    let data = PhysicalArray::Int64(NullableArray::from_options(&items, 0));
    let logical_type = LogicalType::Timestamp { unit, timezone: zone.map(|z| z.to_string()) };
    TemporalArray::new(logical_type, data).unwrap()
}

fn time32(unit: TimeUnit, items: Vec<Option<i32>>) -> TemporalArray {
    let data = PhysicalArray::Int32(NullableArray::from_options(&items, 0));
    TemporalArray::new(LogicalType::TimeOfDay32 { unit }, data).unwrap()
}

fn time64(unit: TimeUnit, items: Vec<Option<i64>>) -> TemporalArray {
    let data = PhysicalArray::Int64(NullableArray::from_options(&items, 0));
    TemporalArray::new(LogicalType::TimeOfDay64 { unit }, data).unwrap()
}

#[test]
fn epoch_day_is_thursday_the_first_of_january_1970() {
    let array = date32(vec![Some(0)]);
    assert_eq!(year(&array, ZoneDatabase::Absent).unwrap().to_options(), vec![Some(1970)]);
    assert_eq!(month(&array, ZoneDatabase::Absent).unwrap().to_options(), vec![Some(1)]);
    assert_eq!(day(&array, ZoneDatabase::Absent).unwrap().to_options(), vec![Some(1)]);
    assert_eq!(weekday(&array, ZoneDatabase::Absent).unwrap().to_options(), vec![Some(4)]);
    assert_eq!(iso_week(&array, ZoneDatabase::Absent).unwrap().to_options(), vec![Some(1)]);
}

#[test]
fn output_keeps_length_and_nulls() {
    let array = date32(vec![Some(0), None, Some(19_000), None, None, Some(-1)]);
    let years = year(&array, ZoneDatabase::Absent).unwrap();
    assert_eq!(years.len(), 6);
    assert_eq!(
        years.to_options(),
        vec![Some(1970), None, Some(2022), None, None, Some(1969)]
    );
    let days = day(&array, ZoneDatabase::Absent).unwrap();
    assert_eq!(days.to_options(), vec![Some(1), None, Some(8), None, None, Some(31)]);
}

#[test]
fn empty_array_gives_empty_array() {
    let array = date32(vec![]);
    assert_eq!(year(&array, ZoneDatabase::Absent).unwrap().len(), 0);
    let array = timestamp(TimeUnit::Second, Some("+01:00"), vec![]);
    assert_eq!(hour(&array, ZoneDatabase::Absent).unwrap().len(), 0);
}

#[test]
fn date64_reads_milliseconds_as_days() {
    // 2022-01-08 12:00:00 and the last millisecond of 1969.
    let array = date64(vec![Some(19_000 * 86_400_000 + 43_200_000), Some(-1)]);
    assert_eq!(
        year(&array, ZoneDatabase::Absent).unwrap().to_options(),
        vec![Some(2022), Some(1969)]
    );
    assert_eq!(
        month(&array, ZoneDatabase::Absent).unwrap().to_options(),
        vec![Some(1), Some(12)]
    );
    assert_eq!(day(&array, ZoneDatabase::Absent).unwrap().to_options(), vec![Some(8), Some(31)]);
    assert_eq!(
        weekday(&array, ZoneDatabase::Absent).unwrap().to_options(),
        vec![Some(6), Some(3)]
    );
}

#[test]
fn timestamp_before_the_epoch_floors() {
    // One millisecond before the epoch: 1969-12-31 23:59:59.999.
    let array = timestamp(TimeUnit::Millisecond, None, vec![Some(-1)]);
    let zones = ZoneDatabase::Absent;
    assert_eq!(year(&array, zones).unwrap().to_options(), vec![Some(1969)]);
    assert_eq!(month(&array, zones).unwrap().to_options(), vec![Some(12)]);
    assert_eq!(day(&array, zones).unwrap().to_options(), vec![Some(31)]);
    assert_eq!(hour(&array, zones).unwrap().to_options(), vec![Some(23)]);
    assert_eq!(minute(&array, zones).unwrap().to_options(), vec![Some(59)]);
    assert_eq!(second(&array, zones).unwrap().to_options(), vec![Some(59)]);
    assert_eq!(nanosecond(&array, zones).unwrap().to_options(), vec![Some(999_000_000)]);
}

#[test]
fn timestamp_units_scale_the_fraction() {
    let zones = ZoneDatabase::Absent;
    // 2001-09-09 01:46:40 UTC is one billion seconds after the epoch.
    let seconds = timestamp(TimeUnit::Second, None, vec![Some(1_000_000_000)]);
    assert_eq!(year(&seconds, zones).unwrap().to_options(), vec![Some(2001)]);
    assert_eq!(month(&seconds, zones).unwrap().to_options(), vec![Some(9)]);
    assert_eq!(day(&seconds, zones).unwrap().to_options(), vec![Some(9)]);
    assert_eq!(hour(&seconds, zones).unwrap().to_options(), vec![Some(1)]);
    assert_eq!(minute(&seconds, zones).unwrap().to_options(), vec![Some(46)]);
    assert_eq!(second(&seconds, zones).unwrap().to_options(), vec![Some(40)]);
    assert_eq!(nanosecond(&seconds, zones).unwrap().to_options(), vec![Some(0)]);

    let millis = timestamp(TimeUnit::Millisecond, None, vec![Some(1_000_000_000_123)]);
    assert_eq!(second(&millis, zones).unwrap().to_options(), vec![Some(40)]);
    assert_eq!(nanosecond(&millis, zones).unwrap().to_options(), vec![Some(123_000_000)]);

    let micros = timestamp(TimeUnit::Microsecond, None, vec![Some(1_000_000_000_123_456)]);
    assert_eq!(second(&micros, zones).unwrap().to_options(), vec![Some(40)]);
    assert_eq!(nanosecond(&micros, zones).unwrap().to_options(), vec![Some(123_456_000)]);

    let nanos = timestamp(TimeUnit::Nanosecond, None, vec![Some(1_000_000_000_123_456_789)]);
    assert_eq!(year(&nanos, zones).unwrap().to_options(), vec![Some(2001)]);
    assert_eq!(second(&nanos, zones).unwrap().to_options(), vec![Some(40)]);
    assert_eq!(nanosecond(&nanos, zones).unwrap().to_options(), vec![Some(123_456_789)]);
}

#[test]
fn extreme_nanosecond_timestamps_decode() {
    let zones = ZoneDatabase::Absent;
    let array = timestamp(TimeUnit::Nanosecond, None, vec![Some(i64::MIN), Some(i64::MAX)]);
    // 1677-09-21 00:12:43.145224192 and 2262-04-11 23:47:16.854775807
    assert_eq!(year(&array, zones).unwrap().to_options(), vec![Some(1677), Some(2262)]);
    assert_eq!(month(&array, zones).unwrap().to_options(), vec![Some(9), Some(4)]);
    assert_eq!(day(&array, zones).unwrap().to_options(), vec![Some(21), Some(11)]);
    assert_eq!(hour(&array, zones).unwrap().to_options(), vec![Some(0), Some(23)]);
    assert_eq!(minute(&array, zones).unwrap().to_options(), vec![Some(12), Some(47)]);
    assert_eq!(second(&array, zones).unwrap().to_options(), vec![Some(43), Some(16)]);
    assert_eq!(
        nanosecond(&array, zones).unwrap().to_options(),
        vec![Some(145_224_192), Some(854_775_807)]
    );
}

#[test]
fn iso_week_at_year_boundaries() {
    let zones = ZoneDatabase::Absent;
    // 2021-12-31 is in week 52 of 2021; 2018-12-31 is in week 1 of 2019;
    // 2020-12-31 is in week 53 of 2020; 2021-01-03 is still in week 53.
    let array = date32(vec![Some(18_992), Some(17_896), Some(18_627), Some(18_630)]);
    assert_eq!(
        iso_week(&array, zones).unwrap().to_options(),
        vec![Some(52), Some(1), Some(53), Some(53)]
    );
    assert_eq!(
        year(&array, zones).unwrap().to_options(),
        vec![Some(2021), Some(2018), Some(2020), Some(2021)]
    );
    assert_eq!(
        weekday(&array, zones).unwrap().to_options(),
        vec![Some(5), Some(1), Some(4), Some(7)]
    );
}

#[test]
fn weekday_runs_monday_to_sunday() {
    // 1970-01-05 was a Monday.
    let array = date32((4..11).map(Some).collect());
    assert_eq!(
        weekday(&array, ZoneDatabase::Absent).unwrap().to_options(),
        vec![Some(1), Some(2), Some(3), Some(4), Some(5), Some(6), Some(7)]
    );
}

#[test]
fn leap_day_and_month_ends() {
    let zones = ZoneDatabase::Absent;
    // 2000-02-29, 2000-03-01, 1900-02-28, 1900-03-01, 2023-12-31
    let array =
        date32(vec![Some(11_016), Some(11_017), Some(-25_509), Some(-25_508), Some(19_722)]);
    assert_eq!(
        month(&array, zones).unwrap().to_options(),
        vec![Some(2), Some(3), Some(2), Some(3), Some(12)]
    );
    assert_eq!(
        day(&array, zones).unwrap().to_options(),
        vec![Some(29), Some(1), Some(28), Some(1), Some(31)]
    );
    assert_eq!(
        year(&array, zones).unwrap().to_options(),
        vec![Some(2000), Some(2000), Some(1900), Some(1900), Some(2023)]
    );
}

#[test]
fn month_and_day_stay_in_range_over_a_leap_year() {
    // Every day of 2024, a leap year: 19_723 is 2024-01-01.
    let array = date32((19_723..19_723 + 366).map(Some).collect());
    let months = month(&array, ZoneDatabase::Absent).unwrap().to_options();
    let days = day(&array, ZoneDatabase::Absent).unwrap().to_options();
    let weeks = iso_week(&array, ZoneDatabase::Absent).unwrap().to_options();
    assert!(months.iter().all(|m| (1..=12).contains(&m.unwrap())));
    assert!(days.iter().all(|d| (1..=31).contains(&d.unwrap())));
    assert!(weeks.iter().all(|w| (1..=53).contains(&w.unwrap())));
    assert_eq!(months[59], Some(2));
    assert_eq!(days[59], Some(29));
    assert_eq!(months[365], Some(12));
    assert_eq!(days[365], Some(31));
}

#[test]
fn calendar_limits_are_the_first_and_last_day() {
    let zones = ZoneDatabase::Absent;
    let array = date32(vec![Some(-96_465_292), Some(95_026_236)]);
    assert_eq!(year(&array, zones).unwrap().to_options(), vec![Some(-262_143), Some(262_142)]);
    assert_eq!(month(&array, zones).unwrap().to_options(), vec![Some(1), Some(12)]);
    assert_eq!(day(&array, zones).unwrap().to_options(), vec![Some(1), Some(31)]);
}

#[test]
fn day_beyond_the_calendar_is_a_range_violation() {
    let zones = ZoneDatabase::Absent;
    let late = date32(vec![Some(0), Some(95_026_237)]);
    assert_eq!(year(&late, zones).unwrap_err(), ExtractError::NumericRangeViolation);
    let early = date32(vec![Some(-96_465_293)]);
    assert_eq!(weekday(&early, zones).unwrap_err(), ExtractError::NumericRangeViolation);
    let extreme = date32(vec![Some(i32::MIN), Some(i32::MAX)]);
    assert_eq!(month(&extreme, zones).unwrap_err(), ExtractError::NumericRangeViolation);
}

#[test]
fn null_beyond_the_calendar_is_no_error() {
    let items = vec![Some(5_i64), None];
    let validity = vec![true, false];
    let values = vec![5_i64, i64::MAX];
    let stored = NullableArray::from_parts(values, validity).unwrap();
    assert_eq!(stored.to_options(), items);
    let logical_type = LogicalType::Timestamp { unit: TimeUnit::Second, timezone: None };
    let array = TemporalArray::new(logical_type, PhysicalArray::Int64(stored)).unwrap();
    assert_eq!(
        year(&array, ZoneDatabase::Absent).unwrap().to_options(),
        vec![Some(1970), None]
    );
}

#[test]
fn timestamp_beyond_the_calendar_fails_for_dates_only() {
    let zones = ZoneDatabase::Absent;
    let array = timestamp(TimeUnit::Second, None, vec![Some(i64::MAX), Some(i64::MIN)]);
    assert_eq!(year(&array, zones).unwrap_err(), ExtractError::NumericRangeViolation);
    // i64::MAX seconds end at 15:30:07 of their day, i64::MIN at 08:29:52.
    assert_eq!(hour(&array, zones).unwrap().to_options(), vec![Some(15), Some(8)]);
    assert_eq!(minute(&array, zones).unwrap().to_options(), vec![Some(30), Some(29)]);
    assert_eq!(second(&array, zones).unwrap().to_options(), vec![Some(7), Some(52)]);
}

#[test]
fn hour_on_a_date_array_is_unsupported() {
    let zones = ZoneDatabase::Linked;
    let array = date32(vec![Some(0)]);
    assert_eq!(hour(&array, zones).unwrap_err(), ExtractError::UnsupportedLogicalType);
    assert_eq!(minute(&array, zones).unwrap_err(), ExtractError::UnsupportedLogicalType);
    assert_eq!(second(&array, zones).unwrap_err(), ExtractError::UnsupportedLogicalType);
    assert_eq!(nanosecond(&array, zones).unwrap_err(), ExtractError::UnsupportedLogicalType);
    let array = date64(vec![Some(0)]);
    assert_eq!(hour(&array, zones).unwrap_err(), ExtractError::UnsupportedLogicalType);
}

#[test]
fn year_on_a_time_array_is_unsupported() {
    let zones = ZoneDatabase::Linked;
    let array = time32(TimeUnit::Second, vec![Some(0)]);
    assert_eq!(year(&array, zones).unwrap_err(), ExtractError::UnsupportedLogicalType);
    assert_eq!(month(&array, zones).unwrap_err(), ExtractError::UnsupportedLogicalType);
    assert_eq!(day(&array, zones).unwrap_err(), ExtractError::UnsupportedLogicalType);
    assert_eq!(weekday(&array, zones).unwrap_err(), ExtractError::UnsupportedLogicalType);
    assert_eq!(iso_week(&array, zones).unwrap_err(), ExtractError::UnsupportedLogicalType);
    let array = time64(TimeUnit::Nanosecond, vec![Some(0)]);
    assert_eq!(year(&array, zones).unwrap_err(), ExtractError::UnsupportedLogicalType);
}

#[test]
fn unsupported_comes_before_range_and_zone_errors() {
    // Classification fails first, whatever the elements hold.
    let array = date32(vec![Some(i32::MAX)]);
    assert_eq!(
        hour(&array, ZoneDatabase::Absent).unwrap_err(),
        ExtractError::UnsupportedLogicalType
    );
}

#[test]
fn time_of_day_units_follow_the_width() {
    let zones = ZoneDatabase::Absent;
    let bad32 = time32(TimeUnit::Microsecond, vec![Some(1)]);
    assert_eq!(hour(&bad32, zones).unwrap_err(), ExtractError::UnsupportedLogicalType);
    let bad32 = time32(TimeUnit::Nanosecond, vec![Some(1)]);
    assert_eq!(hour(&bad32, zones).unwrap_err(), ExtractError::UnsupportedLogicalType);
    let bad64 = time64(TimeUnit::Second, vec![Some(1)]);
    assert_eq!(second(&bad64, zones).unwrap_err(), ExtractError::UnsupportedLogicalType);
    let bad64 = time64(TimeUnit::Millisecond, vec![Some(1)]);
    assert_eq!(nanosecond(&bad64, zones).unwrap_err(), ExtractError::UnsupportedLogicalType);
}

#[test]
fn time32_fields() {
    let zones = ZoneDatabase::Absent;
    // 13:45:30
    let seconds = time32(TimeUnit::Second, vec![Some(49_530), None, Some(0), Some(86_399)]);
    assert_eq!(
        hour(&seconds, zones).unwrap().to_options(),
        vec![Some(13), None, Some(0), Some(23)]
    );
    assert_eq!(
        minute(&seconds, zones).unwrap().to_options(),
        vec![Some(45), None, Some(0), Some(59)]
    );
    assert_eq!(
        second(&seconds, zones).unwrap().to_options(),
        vec![Some(30), None, Some(0), Some(59)]
    );
    assert_eq!(
        nanosecond(&seconds, zones).unwrap().to_options(),
        vec![Some(0), None, Some(0), Some(0)]
    );
    // 13:45:30.250
    let millis = time32(TimeUnit::Millisecond, vec![Some(49_530_250)]);
    assert_eq!(hour(&millis, zones).unwrap().to_options(), vec![Some(13)]);
    assert_eq!(minute(&millis, zones).unwrap().to_options(), vec![Some(45)]);
    assert_eq!(second(&millis, zones).unwrap().to_options(), vec![Some(30)]);
    assert_eq!(nanosecond(&millis, zones).unwrap().to_options(), vec![Some(250_000_000)]);
}

#[test]
fn time64_fields() {
    let zones = ZoneDatabase::Absent;
    // 23:59:59.999999
    let micros = time64(TimeUnit::Microsecond, vec![Some(86_399_999_999)]);
    assert_eq!(hour(&micros, zones).unwrap().to_options(), vec![Some(23)]);
    assert_eq!(minute(&micros, zones).unwrap().to_options(), vec![Some(59)]);
    assert_eq!(second(&micros, zones).unwrap().to_options(), vec![Some(59)]);
    assert_eq!(nanosecond(&micros, zones).unwrap().to_options(), vec![Some(999_999_000)]);
    // 01:00:00.000000001
    let nanos = time64(TimeUnit::Nanosecond, vec![Some(3_600_000_000_001)]);
    assert_eq!(hour(&nanos, zones).unwrap().to_options(), vec![Some(1)]);
    assert_eq!(minute(&nanos, zones).unwrap().to_options(), vec![Some(0)]);
    assert_eq!(second(&nanos, zones).unwrap().to_options(), vec![Some(0)]);
    assert_eq!(nanosecond(&nanos, zones).unwrap().to_options(), vec![Some(1)]);
}

#[test]
fn time_of_day_wraps_into_one_day() {
    let zones = ZoneDatabase::Absent;
    // A day and one hour; one second before midnight, counted backwards.
    let seconds = time32(TimeUnit::Second, vec![Some(86_400 + 3_600), Some(-1)]);
    assert_eq!(hour(&seconds, zones).unwrap().to_options(), vec![Some(1), Some(23)]);
    assert_eq!(second(&seconds, zones).unwrap().to_options(), vec![Some(0), Some(59)]);
    let nanos = time64(TimeUnit::Nanosecond, vec![Some(-1), Some(i64::MIN), Some(i64::MAX)]);
    assert_eq!(
        nanosecond(&nanos, zones).unwrap().to_options(),
        vec![Some(999_999_999), Some(145_224_192), Some(854_775_807)]
    );
    assert_eq!(
        hour(&nanos, zones).unwrap().to_options(),
        vec![Some(23), Some(0), Some(23)]
    );
}

#[test]
fn nanosecond_of_stored_elements_is_below_a_billion() {
    let zones = ZoneDatabase::Absent;
    let array = timestamp(
        TimeUnit::Nanosecond,
        Some("+05:30"),
        vec![Some(-1), Some(999_999_999), Some(1_000_000_000), Some(i64::MAX)],
    );
    let values = nanosecond(&array, zones).unwrap().to_options();
    assert_eq!(
        values,
        vec![Some(999_999_999), Some(999_999_999), Some(0), Some(854_775_807)]
    );
    assert!(values.iter().all(|v| (0..=999_999_999).contains(&v.unwrap())));
}

#[test]
fn width_must_match_the_logical_type() {
    let narrow = PhysicalArray::Int32(NullableArray::from_options(&vec![Some(1)], 0));
    let wide = PhysicalArray::Int64(NullableArray::from_options(&vec![Some(1)], 0));
    assert!(TemporalArray::new(LogicalType::DateDays64, narrow).is_none());
    assert!(TemporalArray::new(LogicalType::DateDays32, wide).is_none());
    let narrow = PhysicalArray::Int32(NullableArray::from_options(&vec![Some(1)], 0));
    let logical_type = LogicalType::Timestamp { unit: TimeUnit::Second, timezone: None };
    assert!(TemporalArray::new(logical_type, narrow).is_none());
    let wide = PhysicalArray::Int64(NullableArray::from_options(&vec![Some(1)], 0));
    let logical_type = LogicalType::TimeOfDay32 { unit: TimeUnit::Second };
    assert!(TemporalArray::new(logical_type, wide).is_none());
    let wide = PhysicalArray::Int64(NullableArray::from_options(&vec![Some(1), None], 0));
    let logical_type = LogicalType::TimeOfDay64 { unit: TimeUnit::Microsecond };
    let array = TemporalArray::new(logical_type.clone(), wide).unwrap();
    assert_eq!(array.len(), 2);
    assert_eq!(array.logical_type(), &logical_type);
}

#[test]
fn chunks_extract_to_the_same_values() {
    let zones = ZoneDatabase::Absent;
    let items = vec![Some(0), None, Some(18_992), Some(-1), None, Some(19_782)];
    let whole = day(&date32(items.clone()), zones).unwrap().to_options();
    let mut joined = day(&date32(items[..2].to_vec()), zones).unwrap().to_options();
    joined.extend(day(&date32(items[2..].to_vec()), zones).unwrap().to_options());
    assert_eq!(whole, joined);
    assert_eq!(whole, vec![Some(1), None, Some(31), Some(31), None, Some(29)]);
    // A chunk that fails fails the whole.
    let items = vec![Some(0), Some(i32::MAX)];
    assert_eq!(day(&date32(items[..1].to_vec()), zones).unwrap().to_options(), vec![Some(1)]);
    assert_eq!(
        day(&date32(items[1..].to_vec()), zones).unwrap_err(),
        ExtractError::NumericRangeViolation
    );
    assert_eq!(day(&date32(items), zones).unwrap_err(), ExtractError::NumericRangeViolation);
}
