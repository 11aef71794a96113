//! Scheduler-day arithmetic for a spaced-repetition collection.
//!
//! Given the moment a collection was created, the current moment, the UTC
//! offsets in effect at both, and a configurable rollover hour, the crate
//! reports how many scheduler days have elapsed and when the next rollover
//! is due. Days are counted on the local wall clock, so a day that lasts 23
//! or 25 hours because of a daylight-saving change still counts as one day.

pub mod hour;
pub mod offset;
pub mod civil;
pub mod sched;
pub mod laws;
