//! Fixed offsets from UTC, given by callers as minutes west of Greenwich.

use vstd::prelude::*;

verus! {

/// The largest offset, in minutes either side of UTC, that is taken as given.
pub const MAX_OFFSET_MINUTES: i32 = 1_380;

/// An offset in minutes west of UTC, limited to 23 hours either way.
pub open spec fn bounded_minutes(minutes_west: int) -> int {
    if minutes_west < -1_380 {
        -1_380
    } else if minutes_west > 1_380 {
        1_380
    } else {
        minutes_west
    }
}

/// The seconds west of UTC that a caller's offset in minutes stands for.
pub open spec fn west_seconds(minutes_west: int) -> int {
    60 * bounded_minutes(minutes_west)
}

/// Caps `minutes_west` at 23 hours either side of UTC.
pub fn bounded_offset(minutes_west: i32) -> (bounded: i32)
    ensures
        bounded == bounded_minutes(minutes_west as int),
        -MAX_OFFSET_MINUTES <= bounded <= MAX_OFFSET_MINUTES,
{
    if minutes_west < -MAX_OFFSET_MINUTES {
        -MAX_OFFSET_MINUTES
    } else if minutes_west > MAX_OFFSET_MINUTES {
        MAX_OFFSET_MINUTES
    } else {
        minutes_west
    }
}

/// A fixed offset from UTC, always less than a day either way.
///
/// Positive values lie west of Greenwich: UTC+10 is -36000 seconds.
#[derive(Clone, Copy, Debug, PartialEq, Eq)]
pub struct UtcOffset {
    west_secs: i32,
}

impl UtcOffset {
    #[verifier::type_invariant]
    spec fn within_a_day(self) -> bool {
        -86_400 < self.west_secs < 86_400
    }

    /// Seconds to add to the local time to obtain UTC.
    pub closed spec fn seconds_west(self) -> int {
        self.west_secs as int
    }

    /// Returns the number of seconds to add to convert from the local time
    /// to UTC.
    pub fn utc_minus_local(&self) -> (secs: i32)
        ensures
            secs == self.seconds_west(),
            -86_400 < secs < 86_400,
    {
        proof {
            use_type_invariant(self);
        }
        self.west_secs
    }
}

/// Builds a fixed offset, capping `minutes_west` if out of bounds.
pub fn fixed_offset_from_minutes(minutes_west: i32) -> (offset: UtcOffset)
    ensures
        offset.seconds_west() == west_seconds(minutes_west as int),
{
    let bounded_minutes: i32 = bounded_offset(minutes_west);
    UtcOffset { west_secs: bounded_minutes * 60 }
}

} // verus!
