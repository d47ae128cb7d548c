//! What holds of every ticket and registry, whatever the operations made of
//! them. Each law is stated over the functions that the operations'
//! contracts are stated in.

use vstd::prelude::*;
use crate::types::{Address, Create, ErrorCode, Ticket, Vestor};
use crate::schedule::{
    available_defined,
    cliff_end,
    spec_available,
    spec_has_cliffed,
    spec_unlocked,
    unlocked_defined,
};
use crate::lifecycle::{
    after_claim,
    after_create,
    after_revoke,
    claim_error,
    create_error,
    new_ticket,
    revoke_error,
};

verus! {

/// Until a ticket is revoked, what was claimed and what the vault still holds
/// add up to the grant. After revocation the vault holds nothing.
pub proof fn law_books_balance(t: Ticket)
    requires
        t.wf(),
    ensures
        !t.is_revoked ==> t.claimed + t.balance == t.amount,
        t.is_revoked ==> t.balance == 0,
        0 <= t.claimed <= t.amount,
{
}

/// A ticket that `create` writes is well formed, not revoked, and its whole
/// grant is in the vault.
pub proof fn law_create_opens_books(
    vestor: Vestor,
    accounts: Create,
    beneficiary: Address,
    cliff: u64,
    vesting: u64,
    amount: u64,
    irrevocable: bool,
    now: u64,
    moved: bool,
)
    requires
        create_error(vestor, cliff, vesting, amount, moved) is None,
    ensures
        ({
            let t = new_ticket(accounts, beneficiary, cliff, vesting, amount, irrevocable, now);
            &&& t.wf()
            &&& !t.is_revoked
            &&& t.claimed == 0
            &&& t.claimed + t.balance == t.amount
        }),
{
}

/// A claim keeps a well-formed ticket well formed and active: afterwards
/// what was claimed and what remains still add up to the grant, the claimed
/// amount has not gone down, the balance has not gone up, and one more claim
/// is counted.
pub proof fn law_claim_keeps_books(t: Ticket, caller: Address, now: u64, moved: bool)
    requires
        t.wf(),
        claim_error(t, caller, now, moved) is None,
    ensures
        ({
            let u = after_claim(t, now);
            &&& u.wf()
            &&& !u.is_revoked
            &&& u.claimed + u.balance == u.amount
            &&& u.amount == t.amount
            &&& u.claimed == t.claimed + spec_available(t, now as int)
            &&& u.claimed >= t.claimed
            &&& u.balance <= t.balance
            &&& u.num_claims == t.num_claims + 1
        }),
{
}

/// A revocation keeps a well-formed ticket well formed, empties it and marks
/// it revoked.
pub proof fn law_revoke_closes_books(t: Ticket, caller: Address, moved: bool)
    requires
        t.wf(),
        revoke_error(t, caller, moved) is None,
    ensures
        after_revoke(t).wf(),
        after_revoke(t).is_revoked,
        after_revoke(t).balance == 0,
{
}

/// A ticket without a cliff has cliffed at every time. One with a cliff has
/// not cliffed at any time before the cliff's end, and has at every time
/// from then on.
pub proof fn law_cliff(t: Ticket, now: int)
    ensures
        t.cliff == 0 ==> spec_has_cliffed(t, now),
        t.cliff > 0 && now < t.created_at + t.cliff * 86400 ==> !spec_has_cliffed(t, now),
        t.cliff > 0 && now >= t.created_at + t.cliff * 86400 ==> spec_has_cliffed(t, now),
{
}

/// Before the cliff has passed, the available amount exists and is nothing.
pub proof fn law_nothing_before_cliff(t: Ticket, now: int)
    requires
        t.cliff > 0,
        now < cliff_end(t),
    ensures
        available_defined(t, now),
        spec_available(t, now) == 0,
{
}

/// At the very end of a vesting period the whole grant has unlocked, and at
/// its beginning nothing has.
pub proof fn law_unlock_ends(t: Ticket)
    requires
        t.vesting > 0,
    ensures
        spec_unlocked(t, t.created_at as int) == 0,
        spec_unlocked(t, t.created_at + t.vesting * 86400) == t.amount,
{
    let seconds = t.vesting * 86400;
    assert((seconds * t.amount) / seconds == t.amount) by (nonlinear_arith)
        requires
            seconds > 0,
    ;
    assert((t.created_at + t.vesting * 86400 - t.created_at) * t.amount == seconds * t.amount);
    assert(((t.created_at - t.created_at) * t.amount) == 0) by (nonlinear_arith);
}

/// What has unlocked never goes down as time goes on.
pub proof fn law_unlock_grows(t: Ticket, earlier: int, later: int)
    requires
        t.vesting > 0,
        t.created_at <= earlier <= later,
    ensures
        0 <= spec_unlocked(t, earlier) <= spec_unlocked(t, later),
{
    let seconds = t.vesting * 86400;
    let a = (earlier - t.created_at) * t.amount;
    let b = (later - t.created_at) * t.amount;
    assert(0 <= a <= b) by (nonlinear_arith)
        requires
            0 <= earlier - t.created_at <= later - t.created_at,
            a == (earlier - t.created_at) * t.amount,
            b == (later - t.created_at) * t.amount,
            t.amount >= 0,
    ;
    assert(0 <= a / seconds <= b / seconds) by (nonlinear_arith)
        requires
            0 <= a <= b,
            seconds > 0,
    ;
}

/// Within the vesting period no more than the grant has unlocked.
pub proof fn law_unlock_within_grant(t: Ticket, now: int)
    requires
        t.vesting > 0,
        t.created_at <= now <= t.created_at + t.vesting * 86400,
    ensures
        0 <= spec_unlocked(t, now) <= t.amount,
        unlocked_defined(t, now),
{
    law_unlock_ends(t);
    law_unlock_grows(t, now, t.created_at + t.vesting * 86400);
}

/// When a claim is owed: on a well-formed ticket that is not revoked and not
/// empty, within its vesting period, the beneficiary's claim goes through if
/// the funds move, unless more was claimed than has unlocked by now or the
/// count of claims is full. It moves no more than the vault holds.
pub proof fn law_claim_within_vesting(t: Ticket, caller: Address, now: u64)
    requires
        t.wf(),
        !t.is_revoked,
        t.balance > 0,
        caller@ == t.beneficiary@,
        t.vesting > 0,
        t.created_at <= now <= t.created_at + t.vesting * 86400,
        t.claimed <= spec_unlocked(t, now as int),
        t.num_claims < u64::MAX,
    ensures
        claim_error(t, caller, now, true) is None,
        0 <= spec_available(t, now as int) <= t.balance,
{
    law_unlock_within_grant(t, now as int);
}

/// The formula is not capped: once the vesting period is over and more
/// than the grant has unlocked, a claim on a ticket that still holds funds
/// is refused as a fault.
pub proof fn law_claim_past_grant(t: Ticket, caller: Address, now: u64, moved: bool)
    requires
        t.wf(),
        !t.is_revoked,
        t.balance > 0,
        caller@ == t.beneficiary@,
        now >= t.created_at + t.vesting * 86400,
        spec_unlocked(t, now as int) > t.amount,
    ensures
        claim_error(t, caller, now, moved) == Some(ErrorCode::ArithmeticFault),
{
    assert(spec_has_cliffed(t, now as int));
}

/// Two grants made one after the other get identifiers that follow each
/// other: the first gets the registry's counter, the second the next number,
/// and the counter then stands two above where it began.
pub proof fn law_identifiers_increase(
    vestor: Vestor,
    cliff1: u64,
    vesting1: u64,
    amount1: u64,
    cliff2: u64,
    vesting2: u64,
    amount2: u64,
)
    requires
        create_error(vestor, cliff1, vesting1, amount1, true) is None,
        create_error(after_create(vestor), cliff2, vesting2, amount2, true) is None,
    ensures
        ({
            let first = vestor.current_id;
            let second = after_create(vestor).current_id;
            &&& first < second
            &&& second == first + 1
            &&& after_create(after_create(vestor)).current_id == first + 2
        }),
{
}

/// A registry's counter only goes up: a grant leaves it above the
/// identifier that it handed out, and the registry well formed.
pub proof fn law_counter_advances(vestor: Vestor, cliff: u64, vesting: u64, amount: u64)
    requires
        vestor.wf(),
        create_error(vestor, cliff, vesting, amount, true) is None,
    ensures
        after_create(vestor).current_id == vestor.current_id + 1,
        after_create(vestor).wf(),
{
}

/// A revoked ticket refuses every claim as revoked, whoever asks, whenever,
/// and whatever would be available.
pub proof fn law_revoked_refuses_claim(t: Ticket, caller: Address, now: u64, moved: bool)
    requires
        t.is_revoked,
    ensures
        claim_error(t, caller, now, moved) == Some(ErrorCode::TicketRevoked),
{
}

/// A well-formed irrevocable ticket refuses every revocation as irrevocable.
pub proof fn law_irrevocable_refuses_revoke(t: Ticket, caller: Address, moved: bool)
    requires
        t.wf(),
        t.irrevocable,
    ensures
        revoke_error(t, caller, moved) == Some(ErrorCode::TicketIrrevocable),
{
}

/// Revocation is final: the revoked ticket holds nothing, refuses every
/// later claim and every later revocation as revoked.
pub proof fn law_revocation_is_final(
    t: Ticket,
    grantor: Address,
    caller: Address,
    now: u64,
    moved: bool,
)
    requires
        revoke_error(t, grantor, true) is None,
    ensures
        after_revoke(t).balance == 0,
        after_revoke(t).is_revoked,
        claim_error(after_revoke(t), caller, now, moved) == Some(ErrorCode::TicketRevoked),
        revoke_error(after_revoke(t), caller, moved) == Some(ErrorCode::TicketRevoked),
{
}

/// Right after a claim, at the same time, nothing is available: a second
/// claim, if it is not refused, moves nothing and leaves the claimed amount
/// and the balance as they are.
pub proof fn law_second_claim_finds_nothing(t: Ticket, caller: Address, now: u64, moved: bool)
    requires
        claim_error(t, caller, now, true) is None,
    ensures
        available_defined(after_claim(t, now), now as int),
        spec_available(after_claim(t, now), now as int) == 0,
        claim_error(after_claim(t, now), caller, now, moved) is None ==> {
            &&& after_claim(after_claim(t, now), now).claimed == after_claim(t, now).claimed
            &&& after_claim(after_claim(t, now), now).balance == after_claim(t, now).balance
        },
{
    let u = after_claim(t, now);
    assert(spec_has_cliffed(u, now as int) == spec_has_cliffed(t, now as int));
    assert(spec_unlocked(u, now as int) == spec_unlocked(t, now as int));
    if spec_has_cliffed(t, now as int) {
        assert(unlocked_defined(t, now as int));
        assert(unlocked_defined(u, now as int));
    }
}

} // verus!
