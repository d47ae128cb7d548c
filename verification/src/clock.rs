//! The time at which an operation runs, read from the cluster's clock.

use vstd::prelude::*;
use anchor_lang::prelude::{Clock, SolanaSysvar};

verus! {

/// What a clock reading of `unix` seconds is as a time for the schedule: the
/// same number of seconds, where it is not before the epoch.
pub open spec fn spec_timestamp(unix: i64) -> Option<u64> {
    if unix >= 0 {
        Some(unix as u64)
    } else {
        None
    }
}

/// Calls `Clock::get` of `anchor_lang`, which asks the runtime for the clock
/// sysvar, and hands back the reading's `unix_timestamp`, or `None` where the
/// runtime has no clock to give. Nothing is claimed of the value: it is
/// whatever the runtime says.
#[verifier::external_body]
fn read_clock() -> (r: Option<i64>) {
    match Clock::get() {
        Ok(clock) => Some(clock.unix_timestamp),
        Err(_) => None,
    }
}

/// Turns a clock reading into a time for the schedule.
pub fn timestamp(unix: i64) -> (r: Option<u64>)
    ensures
        r == spec_timestamp(unix),
{
    if unix >= 0 {
        Some(unix as u64)
    } else {
        None
    }
}

/// The current time in seconds since the epoch, or `None` where the clock
/// cannot be read or stands before the epoch. Whatever the clock says, a time
/// that comes back is within the range of a reading.
pub fn now() -> (r: Option<u64>)
    ensures
        r is Some ==> r.unwrap() <= i64::MAX,
{
    match read_clock() {
        Some(unix) => timestamp(unix),
        None => None,
    }
}

} // verus!
