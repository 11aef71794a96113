//! Scheduler days: how many have elapsed since a collection was created, and
//! when the next one begins.

use vstd::prelude::*;
use crate::civil::{
    instant_at_hour, local_date, local_day, supported_instant, wall_clock_instant,
};
use crate::hour::{normalized_hour, normalized_rollover_hour};
use crate::offset::{bounded_minutes, fixed_offset_from_minutes, west_seconds};

verus! {

/// Timing information for the current day.
#[derive(Clone, Copy, Debug, PartialEq, Eq)]
pub struct SchedTimingToday {
    /// The number of days that have passed since the collection was created.
    pub days_elapsed: u32,
    /// Timestamp of the next day rollover.
    pub next_day_at: i64,
}

/// The instant of the rollover on the local calendar day that holds `secs`.
pub open spec fn rollover_instant(secs: int, minutes_west: int, rollover_hour: int) -> int {
    wall_clock_instant(
        local_day(secs, west_seconds(minutes_west)),
        normalized_hour(rollover_hour),
        west_seconds(minutes_west),
    )
}

/// Whether the local clock shows exactly the rollover hour at `secs`.
pub open spec fn is_rollover_instant(secs: int, minutes_west: int, rollover_hour: int) -> bool {
    (secs - west_seconds(minutes_west)) % 86_400 == 3_600 * normalized_hour(rollover_hour)
}

/// The scheduler day of an instant: the local calendar day whose rollover was
/// the last to pass.
pub open spec fn sched_day(secs: int, minutes_west: int, rollover_hour: int) -> int {
    local_day(secs - 3_600 * normalized_hour(rollover_hour), west_seconds(minutes_west))
}

/// The number of rollovers between two calendar days, the last of them
/// counted only once it has passed, and never less than zero.
pub open spec fn day_count(start_day: int, end_day: int, rollover_passed: bool) -> int {
    let days = if rollover_passed {
        end_day - start_day
    } else {
        end_day - start_day - 1
    };
    if days < 0 {
        0
    } else {
        days
    }
}

/// The scheduler days elapsed between creation and now: the distance from
/// the local calendar day of creation to the scheduler day of now, or zero
/// where that day is not later.
pub open spec fn elapsed_days(
    created_secs: int,
    created_mins_west: int,
    now_secs: int,
    now_mins_west: int,
    rollover_hour: int,
) -> int {
    let start = local_day(created_secs, west_seconds(created_mins_west));
    let end = sched_day(now_secs, now_mins_west, rollover_hour);
    if end < start {
        0
    } else {
        end - start
    }
}

/// The instant of the first rollover after `now_secs`: the rollover hour on
/// the local calendar day that follows the scheduler day of now.
pub open spec fn next_rollover(now_secs: int, now_mins_west: int, rollover_hour: int) -> int {
    wall_clock_instant(
        sched_day(now_secs, now_mins_west, rollover_hour) + 1,
        normalized_hour(rollover_hour),
        west_seconds(now_mins_west),
    )
}

/// The number of times the day rolled over between two dates.
pub fn days_elapsed(start_day: i32, end_day: i32, rollover_passed: bool) -> (days: u32)
    ensures
        days == day_count(start_day as int, end_day as int, rollover_passed),
{
    let days: i64 = end_day as i64 - start_day as i64;

    // current day doesn't count before rollover time
    let days: i64 = if rollover_passed {
        days
    } else {
        days - 1
    };

    // minimum of 0
    if days < 0 {
        0
    } else {
        days as u32
    }
}

/// The instant at which the local clock shows the rollover hour on the
/// calendar day that holds `timestamp`.
pub fn rollover_instant_for(timestamp: i64, minutes_west: i32, rollover_hour: i8) -> (rollover: i64)
    requires
        supported_instant(timestamp as int),
    ensures
        rollover == rollover_instant(timestamp as int, minutes_west as int, rollover_hour as int),
        is_rollover_instant(rollover as int, minutes_west as int, rollover_hour as int),
        timestamp - 86_400 < rollover <= timestamp + 82_800,
{
    let west_secs: i32 = fixed_offset_from_minutes(minutes_west).utc_minus_local();
    let date: i32 = local_date(timestamp, west_secs);
    let hour: u8 = normalized_rollover_hour(rollover_hour);
    instant_at_hour(date, hour, west_secs)
}

/// Timing information for the current day.
/// - created_secs is a UNIX timestamp of the collection creation time
/// - created_mins_west is the offset west of UTC at the time of creation
///   (eg UTC+10 hours is -600)
/// - now_secs is a timestamp of the current time
/// - now_mins_west is the current offset west of UTC
/// - rollover_hour is the hour of the day the rollover happens (eg 4 for 4am)
///
/// Both instants must lie in the supported range of the calendar, which
/// `is_supported_instant` tests. Offsets beyond 23 hours and rollover hours
/// beyond 23 are capped, not refused.
pub fn sched_timing_today(
    created_secs: i64,
    created_mins_west: i32,
    now_secs: i64,
    now_mins_west: i32,
    rollover_hour: i8,
) -> (timing: SchedTimingToday)
    requires
        supported_instant(created_secs as int),
        supported_instant(now_secs as int),
    ensures
        timing.days_elapsed == elapsed_days(
            created_secs as int,
            created_mins_west as int,
            now_secs as int,
            now_mins_west as int,
            rollover_hour as int,
        ),
        timing.next_day_at == next_rollover(
            now_secs as int,
            now_mins_west as int,
            rollover_hour as int,
        ),
        now_secs < timing.next_day_at <= now_secs + 86_400,
        is_rollover_instant(timing.next_day_at as int, now_mins_west as int, rollover_hour as int),
        now_secs <= created_secs && bounded_minutes(created_mins_west as int) <= bounded_minutes(
            now_mins_west as int,
        ) ==> timing.days_elapsed == 0,
{
    // dates based on timezone offsets
    let created_west: i32 = fixed_offset_from_minutes(created_mins_west).utc_minus_local();
    let created_date: i32 = local_date(created_secs, created_west);
    let now_west: i32 = fixed_offset_from_minutes(now_mins_west).utc_minus_local();
    let today: i32 = local_date(now_secs, now_west);

    // rollover
    let hour: u8 = normalized_rollover_hour(rollover_hour);
    let rollover_today: i64 = instant_at_hour(today, hour, now_west);
    let rollover_passed = rollover_today <= now_secs;
    let next_day_at: i64 = if rollover_passed {
        rollover_today + 86_400
    } else {
        rollover_today
    };

    // day count
    let days_elapsed: u32 = days_elapsed(created_date, today, rollover_passed);

    SchedTimingToday { days_elapsed, next_day_at }
}

} // verus!
