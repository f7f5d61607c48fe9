//! Guards composed by the handlers before any account changes.
use vstd::prelude::*;

use crate::account::AccountState;
use crate::bytes::bytes32_eq;
use crate::error::VaultError;
use crate::state::Vault;

verus! {

/// Fails with `MissingSignature` unless `account` authorized the call.
pub fn require_signer(account: &AccountState) -> (r: Result<(), VaultError>)
    ensures
        r == (if account.is_signer {
            Ok(())
        } else {
            Err(VaultError::MissingSignature)
        }),
{
    if account.is_signer() {
        Ok(())
    } else {
        Err(VaultError::MissingSignature)
    }
}

/// Fails with `IllegalOwner` unless `account` is controlled by `program_id`.
pub fn require_owned_by(account: &AccountState, program_id: &[u8; 32]) -> (r: Result<(), VaultError>)
    ensures
        r == (if account.owner@ == program_id@ {
            Ok(())
        } else {
            Err(VaultError::IllegalOwner)
        }),
{
    if account.owned_by(program_id) {
        Ok(())
    } else {
        Err(VaultError::IllegalOwner)
    }
}

/// Fails with `OwnerMismatch` unless `caller` is the owner stored in `record`.
pub fn require_owner_match(record: &Vault, caller: &AccountState) -> (r: Result<(), VaultError>)
    ensures
        r == (if record.owner@ == caller.address@ {
            Ok(())
        } else {
            Err(VaultError::OwnerMismatch)
        }),
{
    if bytes32_eq(record.owner(), &caller.address) {
        Ok(())
    } else {
        Err(VaultError::OwnerMismatch)
    }
}

/// Fails with `InsufficientBalance` unless `record` holds at least `amount`.
pub fn require_sufficient_balance(record: &Vault, amount: u64) -> (r: Result<(), VaultError>)
    ensures
        r == (if amount <= record.amount {
            Ok(())
        } else {
            Err(VaultError::InsufficientBalance)
        }),
{
    if amount <= record.amount() {
        Ok(())
    } else {
        Err(VaultError::InsufficientBalance)
    }
}

} // verus!
