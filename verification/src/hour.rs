//! The rollover hour: the local hour of day at which one scheduler day ends
//! and the next begins.

use vstd::prelude::*;

verus! {

/// The configured hour limited to the closed range from -23 to 23.
pub open spec fn capped_hour(hour: int) -> int {
    if hour < -23 {
        -23
    } else if hour > 23 {
        23
    } else {
        hour
    }
}

/// The hour of day, from 0 to 23, that a configured rollover hour selects.
/// A negative hour counts backward from midnight of the following day.
pub open spec fn normalized_hour(hour: int) -> int {
    let capped = capped_hour(hour);
    if capped < 0 {
        24 + capped
    } else {
        capped
    }
}

/// Negative rollover hours are relative to the next day, eg -1 = 23.
/// Cap hour to 23.
pub fn normalized_rollover_hour(hour: i8) -> (normalized: u8)
    ensures
        normalized == normalized_hour(hour as int),
        normalized <= 23,
{
    let capped: i8 = if hour < -23 {
        -23
    } else if hour > 23 {
        23
    } else {
        hour
    };
    if capped < 0 {
        (24 + capped) as u8
    } else {
        capped as u8
    }
}

} // verus!
