//! What holds of the day count and of the next rollover for all inputs.

use vstd::prelude::*;
use vstd::set_lib::{lemma_int_range, set_int_range};
use crate::civil::{local_day, wall_clock_instant};
use crate::hour::normalized_hour;
use crate::offset::{bounded_minutes, west_seconds};
use crate::sched::{
    day_count, elapsed_days, is_rollover_instant, next_rollover, rollover_instant, sched_day,
    SchedTimingToday,
};

verus! {

/// What the local clock shows at an instant, as seconds since it showed
/// 1970-01-01T00:00:00.
pub open spec fn wall_clock(secs: int, minutes_west: int) -> int {
    secs - west_seconds(minutes_west)
}

/// A scheduler day is the calendar day itself once its rollover has passed,
/// and the day before until then.
pub proof fn lemma_sched_day_by_rollover(secs: int, minutes_west: int, rollover_hour: int)
    ensures
        sched_day(secs, minutes_west, rollover_hour) == if rollover_instant(
            secs,
            minutes_west,
            rollover_hour,
        ) <= secs {
            local_day(secs, west_seconds(minutes_west))
        } else {
            local_day(secs, west_seconds(minutes_west)) - 1
        },
{
}

/// The day count is what the stepwise rule gives: take the rollover on the
/// calendar day of now, count the calendar days from the day of creation to
/// the day of now, take one off while today's rollover is still to come, and
/// never go below zero. The next rollover is today's while it is still to
/// come, and 86400 seconds after it otherwise.
pub proof fn lemma_timing_by_steps(
    created_secs: int,
    created_mins_west: int,
    now_secs: int,
    now_mins_west: int,
    rollover_hour: int,
)
    ensures
        elapsed_days(created_secs, created_mins_west, now_secs, now_mins_west, rollover_hour)
            == day_count(
            local_day(created_secs, west_seconds(created_mins_west)),
            local_day(now_secs, west_seconds(now_mins_west)),
            rollover_instant(now_secs, now_mins_west, rollover_hour) <= now_secs,
        ),
        next_rollover(now_secs, now_mins_west, rollover_hour) == if rollover_instant(
            now_secs,
            now_mins_west,
            rollover_hour,
        ) <= now_secs {
            rollover_instant(now_secs, now_mins_west, rollover_hour) + 86_400
        } else {
            rollover_instant(now_secs, now_mins_west, rollover_hour)
        },
{
}

/// The calendar days after the day of creation whose rollover, read on the
/// clock of now, has passed by now.
pub open spec fn rolled_over_days(
    created_secs: int,
    created_mins_west: int,
    now_secs: int,
    now_mins_west: int,
    rollover_hour: int,
) -> Set<int> {
    Set::new(
        |day: int|
            local_day(created_secs, west_seconds(created_mins_west)) < day && wall_clock_instant(
                day,
                normalized_hour(rollover_hour),
                west_seconds(now_mins_west),
            ) <= now_secs,
    )
}

/// The day count is the number of rollovers that have passed on the calendar
/// days after the day of creation.
pub proof fn lemma_elapsed_days_counts_rollovers(
    created_secs: int,
    created_mins_west: int,
    now_secs: int,
    now_mins_west: int,
    rollover_hour: int,
)
    ensures
        rolled_over_days(
            created_secs,
            created_mins_west,
            now_secs,
            now_mins_west,
            rollover_hour,
        ).finite(),
        rolled_over_days(
            created_secs,
            created_mins_west,
            now_secs,
            now_mins_west,
            rollover_hour,
        ).len() == elapsed_days(
            created_secs,
            created_mins_west,
            now_secs,
            now_mins_west,
            rollover_hour,
        ),
{
    let first = local_day(created_secs, west_seconds(created_mins_west)) + 1;
    let count = elapsed_days(
        created_secs,
        created_mins_west,
        now_secs,
        now_mins_west,
        rollover_hour,
    );
    lemma_int_range(first, first + count);
    assert(rolled_over_days(
        created_secs,
        created_mins_west,
        now_secs,
        now_mins_west,
        rollover_hour,
    ) =~= set_int_range(first, first + count));
}

/// Whatever was configured, the rollover falls on an hour of the day, and
/// hours from 0 to 23 are taken as they are.
pub proof fn lemma_normalized_hour_range(rollover_hour: int)
    ensures
        0 <= normalized_hour(rollover_hour) <= 23,
        0 <= rollover_hour <= 23 ==> normalized_hour(rollover_hour) == rollover_hour,
        -23 <= rollover_hour < 0 ==> normalized_hour(rollover_hour) == 24 + rollover_hour,
{
}

/// No day has elapsed at the moment of creation, as long as the offset of
/// now is not east of the offset of creation. In general the count at that
/// moment is zero exactly when the scheduler day of now is not later than the
/// calendar day of creation.
pub proof fn lemma_zero_at_creation(
    now_secs: int,
    created_mins_west: int,
    now_mins_west: int,
    rollover_hour: int,
)
    ensures
        bounded_minutes(created_mins_west) <= bounded_minutes(now_mins_west) ==> elapsed_days(
            now_secs,
            created_mins_west,
            now_secs,
            now_mins_west,
            rollover_hour,
        ) == 0,
        elapsed_days(now_secs, created_mins_west, now_secs, now_mins_west, rollover_hour) == 0
            <==> sched_day(now_secs, now_mins_west, rollover_hour) <= local_day(
            now_secs,
            west_seconds(created_mins_west),
        ),
{
}

/// No day has elapsed at any moment before creation, as long as the offset
/// of now is not east of the offset of creation.
pub proof fn lemma_zero_before_creation(
    created_secs: int,
    created_mins_west: int,
    now_secs: int,
    now_mins_west: int,
    rollover_hour: int,
)
    requires
        now_secs < created_secs,
        bounded_minutes(created_mins_west) <= bounded_minutes(now_mins_west),
    ensures
        elapsed_days(created_secs, created_mins_west, now_secs, now_mins_west, rollover_hour)
            == 0,
{
}

/// The day count never goes down as now moves forward under one offset.
pub proof fn lemma_elapsed_days_monotonic(
    created_secs: int,
    created_mins_west: int,
    earlier_secs: int,
    later_secs: int,
    now_mins_west: int,
    rollover_hour: int,
)
    requires
        earlier_secs <= later_secs,
    ensures
        elapsed_days(created_secs, created_mins_west, earlier_secs, now_mins_west, rollover_hour)
            <= elapsed_days(
            created_secs,
            created_mins_west,
            later_secs,
            now_mins_west,
            rollover_hour,
        ),
{
}

/// The day count never goes down as the local clock moves forward, whichever
/// offsets the two readings were taken under.
pub proof fn lemma_elapsed_days_monotonic_on_wall_clock(
    created_secs: int,
    created_mins_west: int,
    earlier_secs: int,
    earlier_mins_west: int,
    later_secs: int,
    later_mins_west: int,
    rollover_hour: int,
)
    requires
        wall_clock(earlier_secs, earlier_mins_west) <= wall_clock(later_secs, later_mins_west),
    ensures
        elapsed_days(
            created_secs,
            created_mins_west,
            earlier_secs,
            earlier_mins_west,
            rollover_hour,
        ) <= elapsed_days(
            created_secs,
            created_mins_west,
            later_secs,
            later_mins_west,
            rollover_hour,
        ),
{
}

/// From one second to the next the day count goes up by one where the local
/// clock reaches the rollover hour on a day after the day of creation, and
/// stays as it is at every other second.
pub proof fn lemma_elapsed_days_step(
    created_secs: int,
    created_mins_west: int,
    now_secs: int,
    now_mins_west: int,
    rollover_hour: int,
)
    ensures
        elapsed_days(created_secs, created_mins_west, now_secs, now_mins_west, rollover_hour)
            == elapsed_days(
            created_secs,
            created_mins_west,
            now_secs - 1,
            now_mins_west,
            rollover_hour,
        ) + if is_rollover_instant(now_secs, now_mins_west, rollover_hour) && local_day(
            created_secs,
            west_seconds(created_mins_west),
        ) < local_day(now_secs, west_seconds(now_mins_west)) {
            1int
        } else {
            0int
        },
{
}

/// From one rollover until the local clock next shows the rollover hour the
/// day count stays as it is, however many seconds that takes and whichever
/// offset the clock is read under.
pub proof fn lemma_elapsed_days_hold_until_rollover(
    created_secs: int,
    created_mins_west: int,
    rollover_secs: int,
    rollover_mins_west: int,
    now_secs: int,
    now_mins_west: int,
    rollover_hour: int,
)
    requires
        is_rollover_instant(rollover_secs, rollover_mins_west, rollover_hour),
        wall_clock(rollover_secs, rollover_mins_west) <= wall_clock(now_secs, now_mins_west)
            < wall_clock(rollover_secs, rollover_mins_west) + 86_400,
    ensures
        elapsed_days(created_secs, created_mins_west, now_secs, now_mins_west, rollover_hour)
            == elapsed_days(
            created_secs,
            created_mins_west,
            rollover_secs,
            rollover_mins_west,
            rollover_hour,
        ),
{
}

/// Once the local clock shows the rollover hour again, on the calendar day
/// after a rollover that fell on or after the day of creation, the day count
/// is one more than it was, whether the day between lasted 23, 24 or 25
/// hours.
pub proof fn lemma_elapsed_days_next_rollover(
    created_secs: int,
    created_mins_west: int,
    rollover_secs: int,
    rollover_mins_west: int,
    now_secs: int,
    now_mins_west: int,
    rollover_hour: int,
)
    requires
        is_rollover_instant(rollover_secs, rollover_mins_west, rollover_hour),
        local_day(created_secs, west_seconds(created_mins_west)) <= local_day(
            rollover_secs,
            west_seconds(rollover_mins_west),
        ),
        wall_clock(rollover_secs, rollover_mins_west) + 86_400 <= wall_clock(
            now_secs,
            now_mins_west,
        ) < wall_clock(rollover_secs, rollover_mins_west) + 2 * 86_400,
    ensures
        elapsed_days(created_secs, created_mins_west, now_secs, now_mins_west, rollover_hour)
            == elapsed_days(
            created_secs,
            created_mins_west,
            rollover_secs,
            rollover_mins_west,
            rollover_hour,
        ) + 1,
{
}

/// The next rollover lies after now and at most a day ahead, and the local
/// clock shows exactly the rollover hour when it comes.
pub proof fn lemma_next_rollover_is_boundary(
    now_secs: int,
    now_mins_west: int,
    rollover_hour: int,
)
    ensures
        now_secs < next_rollover(now_secs, now_mins_west, rollover_hour) <= now_secs + 86_400,
        is_rollover_instant(
            next_rollover(now_secs, now_mins_west, rollover_hour),
            now_mins_west,
            rollover_hour,
        ),
{
}

/// The next rollover is the only instant after now, and at most a day ahead,
/// at which the local clock shows the rollover hour.
pub proof fn lemma_next_rollover_is_first(
    now_secs: int,
    now_mins_west: int,
    rollover_hour: int,
    boundary_secs: int,
)
    requires
        is_rollover_instant(boundary_secs, now_mins_west, rollover_hour),
        now_secs < boundary_secs <= now_secs + 86_400,
    ensures
        boundary_secs == next_rollover(now_secs, now_mins_west, rollover_hour),
{
}

/// The timing is a function of the five inputs: two results that both meet
/// the contract for the same inputs are the same.
pub proof fn lemma_timing_determined(
    first: SchedTimingToday,
    second: SchedTimingToday,
    created_secs: int,
    created_mins_west: int,
    now_secs: int,
    now_mins_west: int,
    rollover_hour: int,
)
    requires
        first.days_elapsed == elapsed_days(
            created_secs,
            created_mins_west,
            now_secs,
            now_mins_west,
            rollover_hour,
        ),
        first.next_day_at == next_rollover(now_secs, now_mins_west, rollover_hour),
        second.days_elapsed == elapsed_days(
            created_secs,
            created_mins_west,
            now_secs,
            now_mins_west,
            rollover_hour,
        ),
        second.next_day_at == next_rollover(now_secs, now_mins_west, rollover_hour),
    ensures
        first == second,
{
}

} // verus!
