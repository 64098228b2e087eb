//! Recovery of tokens from a closed presale vault.
use vstd::prelude::*;
use crate::address::Address;

verus! {

#[derive(Clone, Copy, Debug, PartialEq, Eq, Structural)]
pub enum RecoverError {
    InvalidAmount,
    InvalidDestination,
}

/// Validates a recovery of `amount` tokens from the vault to a token account
/// owned by `destination_owner`, which must be the signing `authority`: one
/// can only recover to one's own wallet. The caller performs the transfer
/// signed by the vault's derived address.
pub fn recover_tokens(amount: u64, destination_owner: &Address, authority: &Address) -> (r: Result<u64, RecoverError>)
    ensures
        destination_owner.bytes@ != authority.bytes@ ==> r == Err::<u64, RecoverError>(
            RecoverError::InvalidDestination,
        ),
        destination_owner.bytes@ == authority.bytes@ && amount == 0 ==> r == Err::<u64, RecoverError>(
            RecoverError::InvalidAmount,
        ),
        destination_owner.bytes@ == authority.bytes@ && amount > 0 ==> r == Ok::<u64, RecoverError>(amount),
{
    if !destination_owner.same_as(authority) {
        return Err(RecoverError::InvalidDestination);
    }
    if amount == 0 {
        return Err(RecoverError::InvalidAmount);
    }
    Ok(amount)
}

} // verus!
