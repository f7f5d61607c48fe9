//! Withdraw: value leaves the vault for its owner and the balance falls by it.
use vstd::prelude::*;

use crate::account::{ledger, outcome_ledger, outcome_result, AccountModel, AccountState};
use crate::error::VaultError;
use crate::guards::{
    require_owned_by, require_owner_match, require_signer, require_sufficient_balance,
};
use crate::pda::{bump_address, vault_seeds, verify_vault_address};
use crate::state::{record_amount, record_discriminator, record_owner, vault_magic, with_amount, Vault};
use crate::transfer::{can_transfer, moved, transfer, transfer_allowed};

verus! {

/// What withdrawing `amount` with salt `bump` does to the accounts `[owner, vault, system]`.
pub open spec fn withdraw_outcome(
    l: Seq<AccountModel>,
    program_id: Seq<u8>,
    amount: u64,
    bump: u8,
) -> Result<Seq<AccountModel>, VaultError> {
    if l.len() != 3 {
        Err(VaultError::NotEnoughAccountKeys)
    } else if !l[0].is_signer {
        Err(VaultError::MissingSignature)
    } else if l[1].owner != program_id {
        Err(VaultError::IllegalOwner)
    } else if l[1].data.len() != 48 {
        Err(VaultError::CorruptRecord)
    } else if record_discriminator(l[1].data) != vault_magic() {
        Err(VaultError::InvalidDiscriminator)
    } else if record_owner(l[1].data) != l[0].address {
        Err(VaultError::OwnerMismatch)
    } else if record_amount(l[1].data) < amount {
        Err(VaultError::InsufficientBalance)
    } else if bump_address(vault_seeds(l[0].address), bump, program_id) != Some(l[1].address) {
        Err(VaultError::AddressMismatch)
    } else if !transfer_allowed(l[1], l[0], amount, program_id, Some(l[1].address)) {
        Err(VaultError::TransferFailed)
    } else {
        let m = moved(l, 1, 0, amount);
        let balance = (record_amount(l[1].data) - amount) as u64;
        Ok(m.update(1, AccountModel { data: with_amount(l[1].data, balance), ..m[1] }))
    }
}

/// Withdraws `amount` from `accounts[1]` (the vault) to `accounts[0]` (its owner).
///
/// The vault authorizes its own debit: the salt must re-derive the vault's
/// address from the owner before any value moves.
pub fn handler(
    program_id: &[u8; 32],
    accounts: &mut Vec<AccountState>,
    amount: u64,
    bump: u8,
) -> (r: Result<(), VaultError>)
    ensures
        r == outcome_result(withdraw_outcome(ledger(old(accounts)@), program_id@, amount, bump)),
        ledger(final(accounts)@) == outcome_ledger(
            withdraw_outcome(ledger(old(accounts)@), program_id@, amount, bump),
            ledger(old(accounts)@),
        ),
{
    let ghost l = ledger(accounts@);
    if accounts.len() != 3 {
        return Err(VaultError::NotEnoughAccountKeys);
    }
    if let Err(e) = require_signer(&accounts[0]) {
        return Err(e);
    }
    if let Err(e) = require_owned_by(&accounts[1], program_id) {
        return Err(e);
    }
    let vault_state = match Vault::from_account(&accounts[1]) {
        Ok(v) => v,
        Err(e) => return Err(e),
    };
    if let Err(e) = require_owner_match(&vault_state, &accounts[0]) {
        return Err(e);
    }
    if let Err(e) = require_sufficient_balance(&vault_state, amount) {
        return Err(e);
    }
    let current_amount = vault_state.amount();
    if !verify_vault_address(&accounts[1].address, &accounts[0].address, bump, program_id) {
        return Err(VaultError::AddressMismatch);
    }
    let vault_address = accounts[1].address;
    if !can_transfer(&accounts[1], &accounts[0], amount, program_id, Some(&vault_address)) {
        return Err(VaultError::TransferFailed);
    }
    let new_amount = match current_amount.checked_sub(amount) {
        Some(v) => v,
        None => return Err(VaultError::BalanceUnderflow),
    };
    let moved_ok = transfer(accounts, 1, 0, amount, program_id, Some(&vault_address));
    // The check above is exactly the port's condition, so the move succeeds.
    assert(moved_ok is Ok);
    let ghost m = ledger(accounts@);
    assert(m[1] == accounts@[1]@);
    Vault::write_amount(&mut accounts[1].data, new_amount);
    assert(ledger(accounts@) =~= m.update(1, AccountModel { data: with_amount(l[1].data, new_amount), ..m[1] }));
    Ok(())
}

} // verus!
