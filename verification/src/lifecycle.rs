//! The life of a ticket: `create`, `claim` and `revoke`, and the registry's
//! `initialize`.
//!
//! Each operation that moves funds comes in two steps. The first
//! (`create_transfer`, `claim_transfer`, `revoke_transfer`) checks the
//! request and names the transfer that it needs. The caller has that
//! transfer made and hands its outcome to the second (`create`, `claim`,
//! `revoke`), which checks the request again and, only if the funds have
//! moved, writes the new state. A refused operation leaves every record as
//! it was.

use vstd::prelude::*;
use crate::types::{Address, Authority, Create, ErrorCode, Party, Ticket, Transfer, Vestor};
use crate::schedule::{available_defined, checked_available, spec_available};

verus! {

/// Why a `create` is refused, if it is: in this order, an empty grant, a
/// vesting period shorter than the cliff, a registry that has run out of
/// identifiers, a transfer that failed.
pub open spec fn create_error(vestor: Vestor, cliff: u64, vesting: u64, amount: u64, moved: bool)
    -> Option<ErrorCode> {
    if amount == 0 {
        Some(ErrorCode::AmountMustBeGreaterThanZero)
    } else if vesting < cliff {
        Some(ErrorCode::VestingPeriodShouldBeEqualOrLongerThanCliff)
    } else if vestor.current_id == u64::MAX {
        Some(ErrorCode::ArithmeticFault)
    } else if !moved {
        Some(ErrorCode::TransferFailed)
    } else {
        None
    }
}

/// The ticket that a `create` at `now` writes.
pub open spec fn new_ticket(
    accounts: Create,
    beneficiary: Address,
    cliff: u64,
    vesting: u64,
    amount: u64,
    irrevocable: bool,
    now: u64,
) -> Ticket {
    Ticket {
        token_mint: accounts.token_mint,
        token_vault: accounts.token_vault,
        grantor: accounts.grantor,
        beneficiary,
        cliff,
        vesting,
        amount,
        claimed: 0,
        balance: amount,
        created_at: now,
        last_claimed_at: 0,
        num_claims: 0,
        irrevocable,
        is_revoked: false,
        revoked_at: 0,
    }
}

/// The registry after it has handed out one identifier.
pub open spec fn after_create(vestor: Vestor) -> Vestor {
    Vestor { current_id: (vestor.current_id + 1) as u64, nonce: vestor.nonce }
}

/// The transfer that funds a new grant: from the grantor into the vault,
/// signed by the grantor.
pub open spec fn funding(amount: u64) -> Transfer {
    Transfer { from: Party::Grantor, to: Party::Vault, amount, authority: Authority::Grantor }
}

/// Whether the books cannot take a claim at `now`: the available amount does
/// not exist or exceeds what the vault holds, or the count of claims is full.
pub open spec fn claim_fault(t: Ticket, now: int) -> bool {
    ||| !available_defined(t, now)
    ||| spec_available(t, now) > t.balance
    ||| t.num_claims == u64::MAX
}

/// Why a `claim` is refused, if it is: in this order, a revoked ticket, a
/// caller who is not the beneficiary, an empty ticket, a fault in the books,
/// a transfer that failed.
pub open spec fn claim_error(t: Ticket, caller: Address, now: u64, moved: bool) -> Option<
    ErrorCode,
> {
    if t.is_revoked {
        Some(ErrorCode::TicketRevoked)
    } else if caller@ != t.beneficiary@ {
        Some(ErrorCode::Unauthorized)
    } else if t.balance == 0 || t.amount == 0 {
        Some(ErrorCode::InsufficientAvailable)
    } else if claim_fault(t, now as int) {
        Some(ErrorCode::ArithmeticFault)
    } else if !moved {
        Some(ErrorCode::TransferFailed)
    } else {
        None
    }
}

/// The ticket after a claim at `now` of all that is available.
pub open spec fn after_claim(t: Ticket, now: u64) -> Ticket {
    Ticket {
        claimed: (t.claimed + spec_available(t, now as int)) as u64,
        balance: (t.balance - spec_available(t, now as int)) as u64,
        last_claimed_at: now,
        num_claims: (t.num_claims + 1) as u64,
        ..t
    }
}

/// The transfer that pays a claim: from the vault to the beneficiary, signed
/// by the registry's authority.
pub open spec fn payout(vestor: Vestor, t: Ticket, now: u64) -> Transfer {
    Transfer {
        from: Party::Vault,
        to: Party::Beneficiary,
        amount: spec_available(t, now as int) as u64,
        authority: Authority::Registry(vestor.nonce),
    }
}

/// Why a `revoke` is refused, if it is: in this order, a ticket revoked
/// before, an irrevocable ticket, a caller who is not the grantor, an empty
/// vault, a transfer that failed.
pub open spec fn revoke_error(t: Ticket, caller: Address, moved: bool) -> Option<ErrorCode> {
    if t.is_revoked {
        Some(ErrorCode::TicketRevoked)
    } else if t.irrevocable {
        Some(ErrorCode::TicketIrrevocable)
    } else if caller@ != t.grantor@ {
        Some(ErrorCode::Unauthorized)
    } else if t.balance == 0 {
        Some(ErrorCode::InsufficientAvailable)
    } else if !moved {
        Some(ErrorCode::TransferFailed)
    } else {
        None
    }
}

/// The ticket after its revocation. `revoked_at` stays as it was.
pub open spec fn after_revoke(t: Ticket) -> Ticket {
    Ticket { is_revoked: true, balance: 0, ..t }
}

/// The transfer that returns a revoked grant: all that the vault holds, back
/// to the grantor, signed by the registry's authority.
pub open spec fn refund(vestor: Vestor, t: Ticket) -> Transfer {
    Transfer {
        from: Party::Vault,
        to: Party::Grantor,
        amount: t.balance,
        authority: Authority::Registry(vestor.nonce),
    }
}

/// A fresh registry: the first ticket will be number 1.
pub fn initialize(nonce: u8) -> (vestor: Vestor)
    ensures
        vestor == (Vestor { current_id: 1, nonce }),
        vestor.wf(),
{
    Vestor { current_id: 1, nonce }
}

/// Checks a request for a new grant and names the transfer that funds it.
pub fn create_transfer(vestor: &Vestor, cliff: u64, vesting: u64, amount: u64) -> (r: Result<
    Transfer,
    ErrorCode,
>)
    ensures
        match create_error(*vestor, cliff, vesting, amount, true) {
            Some(e) => r == Err::<Transfer, ErrorCode>(e),
            None => r == Ok::<Transfer, ErrorCode>(funding(amount)),
        },
{
    if amount == 0 {
        return Err(ErrorCode::AmountMustBeGreaterThanZero);
    }
    if vesting < cliff {
        return Err(ErrorCode::VestingPeriodShouldBeEqualOrLongerThanCliff);
    }
    if vestor.current_id == u64::MAX {
        return Err(ErrorCode::ArithmeticFault);
    }
    Ok(Transfer { from: Party::Grantor, to: Party::Vault, amount, authority: Authority::Grantor })
}

/// Makes a new grant at `now`. `moved` says whether the funding transfer went
/// through. On success the result is the new ticket's identifier, which is
/// the registry's counter as it stood before the call, and the ticket; the
/// counter has advanced by one.
pub fn create(
    vestor: &mut Vestor,
    accounts: &Create,
    beneficiary: Address,
    cliff: u64,
    vesting: u64,
    amount: u64,
    irrevocable: bool,
    now: u64,
    moved: bool,
) -> (r: Result<(u64, Ticket), ErrorCode>)
    ensures
        match create_error(*old(vestor), cliff, vesting, amount, moved) {
            Some(e) => r == Err::<(u64, Ticket), ErrorCode>(e) && *final(vestor) == *old(vestor),
            None => {
                &&& r == Ok::<(u64, Ticket), ErrorCode>(
                    (
                        old(vestor).current_id,
                        new_ticket(*accounts, beneficiary, cliff, vesting, amount, irrevocable, now),
                    ),
                )
                &&& *final(vestor) == after_create(*old(vestor))
                &&& final(vestor).current_id == old(vestor).current_id + 1
            },
        },
        r is Ok ==> r.unwrap().1.wf(),
        old(vestor).wf() ==> final(vestor).wf(),
{
    match create_transfer(vestor, cliff, vesting, amount) {
        Err(e) => Err(e),
        Ok(_) => {
            if !moved {
                return Err(ErrorCode::TransferFailed);
            }
            let id: u64 = vestor.current_id;
            vestor.current_id = id + 1;
            let ticket = Ticket {
                token_mint: accounts.token_mint,
                token_vault: accounts.token_vault,
                grantor: accounts.grantor,
                beneficiary,
                cliff,
                vesting,
                amount,
                claimed: 0,
                balance: amount,
                created_at: now,
                last_claimed_at: 0,
                num_claims: 0,
                irrevocable,
                is_revoked: false,
                revoked_at: 0,
            };
            Ok((id, ticket))
        },
    }
}

/// The amount that a claim at `now` moves, or why the claim is refused
/// before any transfer is tried.
fn claim_amount(ticket: &Ticket, caller: &Address, now: u64) -> (r: Result<u64, ErrorCode>)
    ensures
        match claim_error(*ticket, *caller, now, true) {
            Some(e) => r == Err::<u64, ErrorCode>(e),
            None => r == Ok::<u64, ErrorCode>(spec_available(*ticket, now as int) as u64),
        },
{
    if ticket.is_revoked {
        return Err(ErrorCode::TicketRevoked);
    }
    if !caller.same(&ticket.beneficiary) {
        return Err(ErrorCode::Unauthorized);
    }
    if ticket.balance == 0 || ticket.amount == 0 {
        return Err(ErrorCode::InsufficientAvailable);
    }
    match checked_available(ticket, now) {
        None => Err(ErrorCode::ArithmeticFault),
        Some(amount) => {
            if amount > ticket.balance || ticket.num_claims == u64::MAX {
                Err(ErrorCode::ArithmeticFault)
            } else {
                Ok(amount)
            }
        },
    }
}

/// Checks a claim at `now` and names the transfer that pays it.
pub fn claim_transfer(vestor: &Vestor, ticket: &Ticket, caller: &Address, now: u64) -> (r: Result<
    Transfer,
    ErrorCode,
>)
    ensures
        match claim_error(*ticket, *caller, now, true) {
            Some(e) => r == Err::<Transfer, ErrorCode>(e),
            None => r == Ok::<Transfer, ErrorCode>(payout(*vestor, *ticket, now)),
        },
{
    match claim_amount(ticket, caller, now) {
        Err(e) => Err(e),
        Ok(amount) => Ok(
            Transfer {
                from: Party::Vault,
                to: Party::Beneficiary,
                amount,
                authority: Authority::Registry(vestor.nonce),
            },
        ),
    }
}

/// Claims at `now` all that is available. `moved` says whether the payout
/// went through. On success the result is the amount claimed, which may be
/// nothing: the claim is still counted and dated.
pub fn claim(ticket: &mut Ticket, caller: &Address, now: u64, moved: bool) -> (r: Result<
    u64,
    ErrorCode,
>)
    ensures
        match claim_error(*old(ticket), *caller, now, moved) {
            Some(e) => r == Err::<u64, ErrorCode>(e) && *final(ticket) == *old(ticket),
            None => {
                &&& r == Ok::<u64, ErrorCode>(spec_available(*old(ticket), now as int) as u64)
                &&& *final(ticket) == after_claim(*old(ticket), now)
            },
        },
        old(ticket).wf() ==> final(ticket).wf(),
{
    match claim_amount(ticket, caller, now) {
        Err(e) => Err(e),
        Ok(amount) => {
            if !moved {
                return Err(ErrorCode::TransferFailed);
            }
            // What is available and what was claimed add up to what has
            // unlocked, or to what was claimed alone before the cliff.
            assert(ticket.claimed + amount <= u64::MAX);
            ticket.claimed = ticket.claimed + amount;
            ticket.balance = ticket.balance - amount;
            ticket.last_claimed_at = now;
            ticket.num_claims = ticket.num_claims + 1;
            Ok(amount)
        },
    }
}

/// The amount that a revocation returns, or why it is refused before any
/// transfer is tried.
fn revoke_amount(ticket: &Ticket, caller: &Address) -> (r: Result<u64, ErrorCode>)
    ensures
        match revoke_error(*ticket, *caller, true) {
            Some(e) => r == Err::<u64, ErrorCode>(e),
            None => r == Ok::<u64, ErrorCode>(ticket.balance),
        },
{
    if ticket.is_revoked {
        return Err(ErrorCode::TicketRevoked);
    }
    if ticket.irrevocable {
        return Err(ErrorCode::TicketIrrevocable);
    }
    if !caller.same(&ticket.grantor) {
        return Err(ErrorCode::Unauthorized);
    }
    if ticket.balance == 0 {
        return Err(ErrorCode::InsufficientAvailable);
    }
    Ok(ticket.balance)
}

/// Checks a revocation and names the transfer that returns the funds.
pub fn revoke_transfer(vestor: &Vestor, ticket: &Ticket, caller: &Address) -> (r: Result<
    Transfer,
    ErrorCode,
>)
    ensures
        match revoke_error(*ticket, *caller, true) {
            Some(e) => r == Err::<Transfer, ErrorCode>(e),
            None => r == Ok::<Transfer, ErrorCode>(refund(*vestor, *ticket)),
        },
{
    match revoke_amount(ticket, caller) {
        Err(e) => Err(e),
        Ok(amount) => Ok(
            Transfer {
                from: Party::Vault,
                to: Party::Grantor,
                amount,
                authority: Authority::Registry(vestor.nonce),
            },
        ),
    }
}

/// Revokes the ticket. `moved` says whether the refund went through. On
/// success the result is the amount returned to the grantor; the ticket is
/// revoked for good and holds nothing.
pub fn revoke(ticket: &mut Ticket, caller: &Address, moved: bool) -> (r: Result<u64, ErrorCode>)
    ensures
        match revoke_error(*old(ticket), *caller, moved) {
            Some(e) => r == Err::<u64, ErrorCode>(e) && *final(ticket) == *old(ticket),
            None => {
                &&& r == Ok::<u64, ErrorCode>(old(ticket).balance)
                &&& *final(ticket) == after_revoke(*old(ticket))
            },
        },
        old(ticket).wf() ==> final(ticket).wf(),
{
    match revoke_amount(ticket, caller) {
        Err(e) => Err(e),
        Ok(amount) => {
            if !moved {
                return Err(ErrorCode::TransferFailed);
            }
            ticket.is_revoked = true;
            ticket.balance = 0;
            Ok(amount)
        },
    }
}

} // verus!
