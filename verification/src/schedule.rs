//! The unlock calculator: whether a ticket's cliff has passed and how much of
//! the grant has unlocked at a given time. Times are seconds since the epoch;
//! the schedule is kept in days of 86400 seconds.

use vstd::prelude::*;
use crate::types::Ticket;

verus! {

/// The first instant at which the ticket's cliff has passed.
pub open spec fn cliff_end(t: Ticket) -> int {
    t.created_at + t.cliff * 86400
}

/// The length of the vesting period in seconds.
pub open spec fn vesting_seconds(t: Ticket) -> int {
    t.vesting * 86400
}

/// A ticket without a cliff has always cliffed; another has cliffed from the
/// end of its cliff on.
pub open spec fn spec_has_cliffed(t: Ticket, now: int) -> bool {
    t.cliff == 0 || now >= cliff_end(t)
}

/// Linear vesting: the share of the grant that the elapsed time is of the
/// vesting period, rounded down. It is not capped: past the end of the period
/// it exceeds the grant.
pub open spec fn spec_unlocked(t: Ticket, now: int) -> int {
    ((now - t.created_at) * t.amount) / vesting_seconds(t)
}

/// The unlocked amount exists where time has not run backwards, the vesting
/// period is not empty and the amount can be held in 64 bits.
pub open spec fn unlocked_defined(t: Ticket, now: int) -> bool {
    &&& now >= t.created_at
    &&& t.vesting > 0
    &&& spec_unlocked(t, now) <= u64::MAX
}

/// What can be claimed: nothing before the cliff, after it what has unlocked
/// and has not been claimed yet.
pub open spec fn spec_available(t: Ticket, now: int) -> int {
    if spec_has_cliffed(t, now) {
        spec_unlocked(t, now) - t.claimed
    } else {
        0
    }
}

/// Before the cliff the available amount always exists. After it, it exists
/// where the unlocked amount does and covers what was claimed.
pub open spec fn available_defined(t: Ticket, now: int) -> bool {
    spec_has_cliffed(t, now) ==> unlocked_defined(t, now) && spec_unlocked(t, now) >= t.claimed
}

/// Whether the ticket's cliff has passed at `now`.
pub fn has_cliffed(ticket: &Ticket, now: u64) -> (r: bool)
    ensures
        r == spec_has_cliffed(*ticket, now as int),
{
    if ticket.cliff == 0 {
        return true;
    }
    let end: u128 = ticket.created_at as u128 + ticket.cliff as u128 * 86400;
    now as u128 >= end
}

/// The amount unlocked at `now`, or `None` where it does not exist.
pub fn checked_unlocked(ticket: &Ticket, now: u64) -> (r: Option<u64>)
    ensures
        r.is_some() == unlocked_defined(*ticket, now as int),
        r.is_some() ==> r.unwrap() == spec_unlocked(*ticket, now as int),
{
    if now < ticket.created_at || ticket.vesting == 0 {
        return None;
    }
    let elapsed: u128 = (now - ticket.created_at) as u128;
    let amount: u128 = ticket.amount as u128;
    assert(elapsed * amount <= 0xFFFF_FFFF_FFFF_FFFF * 0xFFFF_FFFF_FFFF_FFFF) by (nonlinear_arith)
        requires
            elapsed <= 0xFFFF_FFFF_FFFF_FFFF,
            amount <= 0xFFFF_FFFF_FFFF_FFFF,
    ;
    let product: u128 = elapsed * amount;
    let seconds: u128 = ticket.vesting as u128 * 86400;
    let quotient: u128 = product / seconds;
    if quotient > u64::MAX as u128 {
        None
    } else {
        Some(quotient as u64)
    }
}

/// The amount available to claim at `now`, or `None` where it does not exist.
pub fn checked_available(ticket: &Ticket, now: u64) -> (r: Option<u64>)
    ensures
        r.is_some() == available_defined(*ticket, now as int),
        r.is_some() ==> r.unwrap() == spec_available(*ticket, now as int),
{
    if has_cliffed(ticket, now) {
        match checked_unlocked(ticket, now) {
            Some(amount) => {
                if amount >= ticket.claimed {
                    Some(amount - ticket.claimed)
                } else {
                    None
                }
            },
            None => None,
        }
    } else {
        Some(0)
    }
}

/// The amount unlocked at `now`.
pub fn unlocked(ticket: &Ticket, now: u64) -> (r: u64)
    requires
        unlocked_defined(*ticket, now as int),
    ensures
        r == spec_unlocked(*ticket, now as int),
{
    checked_unlocked(ticket, now).unwrap()
}

/// The amount available to claim at `now`.
pub fn available(ticket: &Ticket, now: u64) -> (r: u64)
    requires
        available_defined(*ticket, now as int),
    ensures
        r == spec_available(*ticket, now as int),
{
    checked_available(ticket, now).unwrap()
}

} // verus!
