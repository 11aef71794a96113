//! Local calendar days and wall-clock instants under a fixed offset.
//!
//! A calendar day is named by its number of days since 1970-01-01, and an
//! instant by its number of seconds since 1970-01-01T00:00:00 UTC. The two
//! conversions between them are made by `chrono`; what they return is stated
//! here as arithmetic on those numbers.

use chrono::{FixedOffset, NaiveDate, TimeZone};
use vstd::prelude::*;

verus! {

/// The earliest calendar day that can be held: 1 January of the year -262143.
pub const MIN_DAY: i32 = -96_465_292;

/// The latest calendar day that can be held: 31 December of the year 262142.
pub const MAX_DAY: i32 = 95_026_236;

/// The first instant of the day after `MIN_DAY`, in UTC.
pub const MIN_INSTANT: i64 = -8_334_601_142_400;

/// The last instant of the day before `MAX_DAY`, in UTC.
pub const MAX_INSTANT: i64 = 8_210_266_790_399;

/// Whether a calendar day lies in the range that can be held.
pub open spec fn representable_day(day: int) -> bool {
    MIN_DAY <= day <= MAX_DAY
}

/// Whether the UTC calendar day of an instant can be held.
pub open spec fn representable_instant(secs: int) -> bool {
    representable_day(secs / 86_400)
}

/// Whether an instant is far enough from both ends of the calendar that its
/// local day can be held under every offset of less than a day.
pub open spec fn supported_instant(secs: int) -> bool {
    MIN_INSTANT <= secs <= MAX_INSTANT
}

/// The local calendar day on which an instant falls for an observer whose
/// clock is `west_secs` seconds behind UTC.
pub open spec fn local_day(secs: int, west_secs: int) -> int {
    (secs - west_secs) / 86_400
}

/// The instant at which a clock that is `west_secs` seconds behind UTC shows
/// `hour`:00:00 on calendar day `day`.
pub open spec fn wall_clock_instant(day: int, hour: int, west_secs: int) -> int {
    day * 86_400 + hour * 3_600 + west_secs
}

/// Whether `secs` lies in the supported range of instants.
pub fn is_supported_instant(secs: i64) -> (supported: bool)
    ensures
        supported == supported_instant(secs as int),
{
    MIN_INSTANT <= secs && secs <= MAX_INSTANT
}

/// The local calendar day of an instant, as days since 1970-01-01.
///
/// Trusted, not proved: the body asks `chrono` for the date.
/// `FixedOffset::west_opt` accepts offsets of less than a day;
/// `TimeZone::timestamp_opt` takes the seconds since the epoch and yields a
/// date-time when the UTC date is in range; `DateTime::date_naive` gives its
/// date on the local clock and panics when that date is out of range;
/// `NaiveDate::to_epoch_days` counts days with 1970-01-01 as day 0. The
/// contract claims that the date so found is the whole number of days, rounded
/// down, in the seconds that are left once the offset is taken off.
#[verifier::external_body]
pub(crate) fn local_date(secs: i64, west_secs: i32) -> (day: i32)
    requires
        -86_400 < west_secs < 86_400,
        representable_instant(secs as int),
        representable_day(local_day(secs as int, west_secs as int)),
    ensures
        day == local_day(secs as int, west_secs as int),
{
    let offset = FixedOffset::west_opt(west_secs).unwrap();
    offset.timestamp_opt(secs, 0).unwrap().date_naive().to_epoch_days()
}

/// The instant at which the local clock shows `hour`:00:00 on a calendar day.
///
/// Trusted, not proved: the body asks `chrono` for the instant.
/// `NaiveDate::from_epoch_days` accepts the days that can be held;
/// `NaiveDate::and_hms_opt` accepts hours below 24;
/// `TimeZone::from_local_datetime`, for a `FixedOffset`, reads the date and
/// time as local and yields a date-time when the UTC date is in range;
/// `DateTime::timestamp` gives its seconds since the epoch. The contract
/// claims that the instant so found is 86400 seconds for each day, 3600 for
/// each hour, and the seconds by which the local clock is behind UTC.
#[verifier::external_body]
pub(crate) fn instant_at_hour(day: i32, hour: u8, west_secs: i32) -> (secs: i64)
    requires
        hour < 24,
        -86_400 < west_secs < 86_400,
        representable_day(day as int),
        representable_instant(wall_clock_instant(day as int, hour as int, west_secs as int)),
    ensures
        secs == wall_clock_instant(day as int, hour as int, west_secs as int),
{
    let date = NaiveDate::from_epoch_days(day).unwrap();
    let local = date.and_hms_opt(u32::from(hour), 0, 0).unwrap();
    let offset = FixedOffset::west_opt(west_secs).unwrap();
    offset.from_local_datetime(&local).unwrap().timestamp()
}

} // verus!
