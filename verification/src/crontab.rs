//! Trusted access to the `cron` crate: parsing a cron expression and asking for
//! the next instant at which it fires.

use chrono::{DateTime, Utc};
use cron::Schedule as CronSchedule;
use std::str::FromStr;
use std::time::{Duration, UNIX_EPOCH};
use vstd::prelude::*;

verus! {

/// The largest instant, in milliseconds since the Unix epoch, from which the
/// next firing can be looked up: the lookup starts one second later, and chrono
/// represents no instant after the end of year 262142.
pub const MAX_SCHEDULE_MILLIS: i64 = 8_210_266_876_798_999i64;

/// The message of the error that `cron::Schedule::from_str` reports for every
/// expression that it rejects.
pub open spec fn cron_parse_error_message() -> Seq<char> {
    "Invalid expression: Invalid cron expression."@
}

/// Whether `cron::Schedule::from_str` accepts the expression (the grammar of
/// the cron crate, seconds field first).
pub uninterp spec fn cron_accepts(expr: Seq<char>) -> bool;

/// What the cron crate gives as the first firing of the expression after the
/// instant `after_ms` (milliseconds since the Unix epoch, UTC), in milliseconds
/// since the Unix epoch; `None` where the expression does not parse or has no
/// firing left before the end of the years that the crate covers.
pub uninterp spec fn cron_next_after(expr: Seq<char>, after_ms: i64) -> Option<i64>;

/// Calls `cron::Schedule::from_str` and, on a rejection, renders the error
/// with `to_string`. Claimed: the expression is rejected exactly where
/// `cron_accepts` is false, and the message is the crate's one fixed text
/// (`ErrorKind::Expression("Invalid cron expression.")` behind the prefix that
/// its `Display` writes).
#[verifier::external_body]
pub(crate) fn cron_parse_error(expr: &str) -> (msg: Option<String>)
    ensures
        msg is None <==> cron_accepts(expr@),
        msg matches Some(m) ==> m@ == cron_parse_error_message(),
{
    match CronSchedule::from_str(expr) {
        Ok(_) => None,
        Err(e) => Some(e.to_string()),
    }
}

/// Parses the expression with `cron::Schedule::from_str`, turns `after_ms` into
/// a `DateTime<Utc>` as `UNIX_EPOCH + Duration::from_millis(..)`, and asks
/// `Schedule::after(..).next()` for the next firing, rendered with
/// `timestamp_millis`. Claimed: the result is `cron_next_after` of the
/// arguments, and `None` for an expression that does not parse. The `requires`
/// keeps out the instants at which chrono panics.
#[verifier::external_body]
pub(crate) fn cron_next_run_millis(expr: &str, after_ms: i64) -> (next: Option<i64>)
    requires
        0 <= after_ms <= MAX_SCHEDULE_MILLIS,
    ensures
        next == cron_next_after(expr@, after_ms),
        !cron_accepts(expr@) ==> next is None,
{
    let schedule = match CronSchedule::from_str(expr) {
        Ok(s) => s,
        Err(_) => return None,
    };
    let after = DateTime::<Utc>::from(UNIX_EPOCH + Duration::from_millis(after_ms as u64));
    match schedule.after(&after).next() {
        Some(t) => Some(t.timestamp_millis()),
        None => None,
    }
}

} // verus!
