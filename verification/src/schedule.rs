//! Ready-made schedules.

use crate::job::Schedule;
use vstd::prelude::*;

verus! {

/// Fires every second.
pub fn secondly() -> (s: Schedule)
    ensures
        s@ == "* * * * * *"@,
{
    Schedule { expr: "* * * * * *".to_owned() }
}

/// Fires at second zero of every minute.
pub fn minutely() -> (s: Schedule)
    ensures
        s@ == "0 * * * * *"@,
{
    Schedule { expr: "0 * * * * *".to_owned() }
}

/// Fires at second zero of every fifth minute.
#[allow(non_snake_case)]
pub fn everyFiveMinutes() -> (s: Schedule)
    ensures
        s@ == "0 */5 * * * *"@,
{
    Schedule { expr: "0 */5 * * * *".to_owned() }
}

} // verus!
