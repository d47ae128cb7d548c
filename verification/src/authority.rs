//! The registry's authority over its vaults: an address derived from the
//! registry's own address and its bump, for which only the program can sign.
//! No key is stored anywhere: whoever knows the registry can derive the
//! address again, and nobody holds a secret for it.

use vstd::prelude::*;
use anchor_lang::prelude::Pubkey;
use crate::types::{Address, ErrorCode, Vestor};

verus! {

/// The address that the runtime derives for `program` from the seeds
/// `registry` and `nonce`, or `None` where these seeds give no valid address.
pub uninterp spec fn program_address(registry: Seq<u8>, nonce: u8, program: Seq<u8>) -> Option<
    Seq<u8>,
>;

/// Calls `Pubkey::create_program_address` with the two seeds `registry` (32
/// bytes) and `[nonce]`. The contract says only that what comes back is the
/// derived address, `None` standing for the seeds that the call rejects. Two
/// seeds of at most 32 bytes are within the limits that the call sets.
#[verifier::external_body]
fn create_program_address(registry: &Address, nonce: u8, program: &Address) -> (r: Option<Address>)
    ensures
        (match r {
            Some(a) => Some(a@),
            None => None,
        }) == program_address(registry@, nonce, program@),
{
    let program_id = Pubkey::new_from_array(program.bytes);
    match Pubkey::create_program_address(&[&registry.bytes[..], &[nonce]], &program_id) {
        Ok(key) => Some(Address { bytes: key.to_bytes() }),
        Err(_) => None,
    }
}

/// Whether `signer` is the derived address `derived`.
pub open spec fn spec_is_authority(derived: Option<Address>, signer: Address) -> bool {
    derived matches Some(a) && a@ == signer@
}

/// Whether `signer` is the address that a derivation gave. A derivation that
/// gave nothing makes nobody the authority.
pub fn is_authority(derived: &Option<Address>, signer: &Address) -> (ok: bool)
    ensures
        ok == spec_is_authority(*derived, *signer),
{
    match derived {
        Some(a) => a.same(signer),
        None => false,
    }
}

/// The authority of the registry at address `registry` under `program`.
pub fn authority(vestor: &Vestor, registry: &Address, program: &Address) -> (r: Option<Address>)
    ensures
        (match r {
            Some(a) => Some(a@),
            None => None,
        }) == program_address(registry@, vestor.nonce, program@),
{
    create_program_address(registry, vestor.nonce, program)
}

/// Accepts `signer` as the registry's authority if and only if it is the
/// address derived from the registry.
pub fn check_authority(vestor: &Vestor, registry: &Address, program: &Address, signer: &Address)
    -> (r: Result<(), ErrorCode>)
    ensures
        r is Ok <==> program_address(registry@, vestor.nonce, program@) == Some(signer@),
        r is Err ==> r == Err::<(), ErrorCode>(ErrorCode::Unauthorized),
{
    let derived = authority(vestor, registry, program);
    if is_authority(&derived, signer) {
        Ok(())
    } else {
        Err(ErrorCode::Unauthorized)
    }
}

} // verus!
