//! Conversions between the millisecond instants that jobs carry and the
//! whole seconds that the repositories store.

use vstd::prelude::*;

verus! {

/// The largest number of seconds since the Unix epoch that chrono turns into
/// an instant (the last second of year 262142).
pub const MAX_TIMESTAMP_SECS: u64 = 8_210_266_876_799u64;

/// Seconds since the Unix epoch, rounded down, of an instant given in
/// milliseconds.
pub open spec fn floor_seconds(ms: i64) -> int {
    (ms as int) / 1000
}

/// The seconds of an instant as stored in an unsigned field: rounded down,
/// and in two's complement for instants before the epoch.
pub open spec fn stored_seconds(ms: i64) -> u64 {
    if ms >= 0 {
        (ms / 1000) as u64
    } else {
        (u64::MAX - (-(ms + 1)) / 1000) as u64
    }
}

/// The seconds since the Unix epoch of an instant given in milliseconds, as
/// an unsigned stored value.
pub fn seconds_to_store(ms: i64) -> (s: u64)
    ensures
        s == stored_seconds(ms),
        ms >= 0 ==> s == floor_seconds(ms),
{
    if ms >= 0 {
        (ms as u64) / 1000
    } else {
        let back: u64 = (-(ms + 1)) as u64;
        u64::MAX - back / 1000
    }
}

/// The seconds since the Unix epoch, rounded down, of an instant given in
/// milliseconds.
pub fn seconds_of(ms: i64) -> (s: i64)
    ensures
        s == floor_seconds(ms),
{
    if ms >= 0 {
        ms / 1000
    } else {
        let back: i64 = -(ms + 1);
        -(back / 1000) - 1
    }
}

/// A stored number of seconds since the Unix epoch, as milliseconds.
pub fn millis_of_stored(secs: u64) -> (ms: i64)
    requires
        secs <= MAX_TIMESTAMP_SECS,
    ensures
        ms == secs * 1000,
{
    (secs as i64) * 1000
}

} // verus!
