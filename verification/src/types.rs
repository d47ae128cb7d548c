//! The records kept for a vesting grant, and the vocabulary shared by the
//! operations on them.

use vstd::prelude::*;

verus! {

/// Identity of a party or of a token account: 32 bytes, compared byte by byte.
#[derive(Clone, Copy, Debug, PartialEq, Eq)]
pub struct Address {
    pub bytes: [u8; 32],
}

impl View for Address {
    type V = Seq<u8>;

    open spec fn view(&self) -> Seq<u8> {
        self.bytes@
    }
}

impl Address {
    /// Whether every byte of the address is zero.
    pub open spec fn is_zero(&self) -> bool {
        self@ == Seq::new(32, |i: int| 0u8)
    }

    /// The address made of the given bytes.
    pub fn new(bytes: [u8; 32]) -> (a: Address)
        ensures
            a.bytes == bytes,
            a@ == bytes@,
    {
        Address { bytes }
    }

    /// Whether two addresses hold the same bytes.
    pub fn same(&self, other: &Address) -> (r: bool)
        ensures
            r == (self@ == other@),
    {
        let mut i: usize = 0;
        while i < 32
            invariant
                i <= 32,
                forall|j: int| 0 <= j < i ==> self.bytes[j] == other.bytes[j],
            decreases 32 - i,
        {
            if self.bytes[i] != other.bytes[i] {
                return false;
            }
            i += 1;
        }
        assert(self@ =~= other@);
        true
    }
}

impl Default for Address {
    /// The address of 32 zero bytes.
    fn default() -> (a: Address)
        ensures
            a.is_zero(),
    {
        let a = Address { bytes: [0u8; 32] };
        assert(a@ =~= Seq::new(32, |i: int| 0u8));
        a
    }
}

/// The registry shared by all tickets: the next ticket identifier to hand out
/// and the bump from which the escrow authority is derived.
#[derive(Clone, Copy, Debug, PartialEq, Eq)]
pub struct Vestor {
    pub current_id: u64,
    pub nonce: u8,
}

impl Vestor {
    /// A registry hands out identifiers from 1 upwards.
    pub open spec fn wf(&self) -> bool {
        self.current_id >= 1
    }
}

/// One vesting grant: who it is between, its schedule, what has been claimed
/// and what is still held in the vault.
#[derive(Clone, Copy, Debug, PartialEq, Eq)]
pub struct Ticket {
    pub token_mint: Address,
    pub token_vault: Address,
    pub grantor: Address,
    pub beneficiary: Address,
    /// Days before anything can be claimed.
    pub cliff: u64,
    /// Days over which the whole amount unlocks.
    pub vesting: u64,
    /// The amount granted.
    pub amount: u64,
    pub claimed: u64,
    pub balance: u64,
    /// Seconds since the epoch at which the grant was made.
    pub created_at: u64,
    pub last_claimed_at: u64,
    pub num_claims: u64,
    pub irrevocable: bool,
    pub is_revoked: bool,
    /// Kept in the record; no operation writes it.
    pub revoked_at: u64,
}

impl Ticket {
    /// What holds of every ticket that `create` made and `claim` and `revoke`
    /// changed: the schedule is sound, claims never exceed the grant, the
    /// balance is what is left of the grant until revocation and nothing
    /// after it, and an irrevocable ticket is never revoked.
    pub open spec fn wf(&self) -> bool {
        &&& self.amount > 0
        &&& self.vesting >= self.cliff
        &&& self.claimed <= self.amount
        &&& self.balance == (if self.is_revoked { 0 } else { self.amount - self.claimed })
        &&& self.irrevocable ==> !self.is_revoked
    }
}

impl Default for Ticket {
    /// The blank record: zero addresses, zero numbers, no flag set. It is no
    /// grant: its amount is nothing.
    fn default() -> (t: Ticket)
        ensures
            t.token_mint.is_zero(),
            t.token_vault.is_zero(),
            t.grantor.is_zero(),
            t.beneficiary.is_zero(),
            t.cliff == 0 && t.vesting == 0 && t.amount == 0,
            t.claimed == 0 && t.balance == 0 && t.num_claims == 0,
            t.created_at == 0 && t.last_claimed_at == 0 && t.revoked_at == 0,
            !t.irrevocable && !t.is_revoked,
    {
        Ticket {
            token_mint: Address::default(),
            token_vault: Address::default(),
            grantor: Address::default(),
            beneficiary: Address::default(),
            cliff: 0,
            vesting: 0,
            amount: 0,
            claimed: 0,
            balance: 0,
            created_at: 0,
            last_claimed_at: 0,
            num_claims: 0,
            irrevocable: false,
            is_revoked: false,
            revoked_at: 0,
        }
    }
}

/// The accounts that a new grant names.
#[derive(Clone, Copy, Debug, PartialEq, Eq)]
pub struct Create {
    pub token_mint: Address,
    pub token_vault: Address,
    pub grantor: Address,
}

/// Why an operation was refused. A refused operation changes nothing.
#[derive(Clone, Copy, Debug, PartialEq, Eq, Structural)]
pub enum ErrorCode {
    /// A grant of nothing was asked for.
    AmountMustBeGreaterThanZero,
    /// The vesting period is shorter than the cliff.
    VestingPeriodShouldBeEqualOrLongerThanCliff,
    /// The ticket has been revoked.
    TicketRevoked,
    /// The ticket cannot be revoked.
    TicketIrrevocable,
    /// The caller is not the party that may ask for this.
    Unauthorized,
    /// The ticket holds nothing to move.
    InsufficientAvailable,
    /// A quantity left the range in which the books can be kept.
    ArithmeticFault,
    /// The funds could not be moved.
    TransferFailed,
}

impl ErrorCode {
    /// The message shown for this error.
    pub fn message(&self) -> (s: String)
        ensures
            s@ == self.message_text(),
    {
        match self {
            ErrorCode::AmountMustBeGreaterThanZero => "Amount must be greater than zero.".to_owned(),
            ErrorCode::VestingPeriodShouldBeEqualOrLongerThanCliff =>
                "Vesting period should be equal or longer to the cliff".to_owned(),
            ErrorCode::TicketRevoked => "Ticket has been revoked".to_owned(),
            ErrorCode::TicketIrrevocable => "Ticket is irrevocable".to_owned(),
            ErrorCode::Unauthorized => "Caller is not a party to the ticket".to_owned(),
            ErrorCode::InsufficientAvailable => "Ticket holds nothing to move".to_owned(),
            ErrorCode::ArithmeticFault => "Arithmetic fault".to_owned(),
            ErrorCode::TransferFailed => "Transfer failed".to_owned(),
        }
    }

    /// The text of each error's message.
    pub open spec fn message_text(&self) -> Seq<char> {
        match self {
            ErrorCode::AmountMustBeGreaterThanZero => "Amount must be greater than zero."@,
            ErrorCode::VestingPeriodShouldBeEqualOrLongerThanCliff =>
                "Vesting period should be equal or longer to the cliff"@,
            ErrorCode::TicketRevoked => "Ticket has been revoked"@,
            ErrorCode::TicketIrrevocable => "Ticket is irrevocable"@,
            ErrorCode::Unauthorized => "Caller is not a party to the ticket"@,
            ErrorCode::InsufficientAvailable => "Ticket holds nothing to move"@,
            ErrorCode::ArithmeticFault => "Arithmetic fault"@,
            ErrorCode::TransferFailed => "Transfer failed"@,
        }
    }
}

/// An end of a transfer, named by its part in the grant.
#[derive(Clone, Copy, Debug, PartialEq, Eq, Structural)]
pub enum Party {
    /// The grantor's own token account.
    Grantor,
    /// The vault that holds the ticket's funds.
    Vault,
    /// The beneficiary's own token account.
    Beneficiary,
}

/// Who signs for a transfer.
#[derive(Clone, Copy, Debug, PartialEq, Eq, Structural)]
pub enum Authority {
    /// The grantor, as owner of the account that is debited.
    Grantor,
    /// The registry's derived authority over its vaults, with the bump it is
    /// derived from.
    Registry(u8),
}

/// A movement of funds that an operation needs before it can be committed.
#[derive(Clone, Copy, Debug, PartialEq, Eq, Structural)]
pub struct Transfer {
    pub from: Party,
    pub to: Party,
    pub amount: u64,
    pub authority: Authority,
}

} // verus!
