//! Deposit: the owner moves value into the vault and the balance rises by it.
use vstd::prelude::*;

use crate::account::{ledger, outcome_ledger, outcome_result, AccountModel, AccountState};
use crate::error::VaultError;
use crate::guards::{require_owned_by, require_owner_match, require_signer};
use crate::state::{record_amount, record_discriminator, record_owner, vault_magic, with_amount, Vault};
use crate::transfer::{can_transfer, moved, transfer, transfer_allowed};

verus! {

/// What a deposit of `amount` does to the accounts `[owner, vault, system]`.
pub open spec fn deposit_outcome(
    l: Seq<AccountModel>,
    program_id: Seq<u8>,
    amount: u64,
) -> Result<Seq<AccountModel>, VaultError> {
    if l.len() != 3 {
        Err(VaultError::NotEnoughAccountKeys)
    } else if !l[0].is_signer {
        Err(VaultError::MissingSignature)
    } else if l[1].owner != program_id {
        Err(VaultError::IllegalOwner)
    } else if l[1].data.len() != 48 {
        Err(VaultError::CorruptRecord)
    } else if record_discriminator(l[1].data) != vault_magic() {
        Err(VaultError::InvalidDiscriminator)
    } else if record_owner(l[1].data) != l[0].address {
        Err(VaultError::OwnerMismatch)
    } else if !transfer_allowed(l[0], l[1], amount, program_id, None) {
        Err(VaultError::TransferFailed)
    } else if record_amount(l[1].data) + amount > u64::MAX {
        Err(VaultError::BalanceOverflow)
    } else {
        let m = moved(l, 0, 1, amount);
        let balance = (record_amount(l[1].data) + amount) as u64;
        Ok(m.update(1, AccountModel { data: with_amount(l[1].data, balance), ..m[1] }))
    }
}

/// Deposits `amount` from `accounts[0]` (the owner) into `accounts[1]` (the vault).
///
/// The new balance is checked before any value moves, so a failing call
/// leaves every account as it was.
pub fn handler(program_id: &[u8; 32], accounts: &mut Vec<AccountState>, amount: u64) -> (r: Result<
    (),
    VaultError,
>)
    ensures
        r == outcome_result(deposit_outcome(ledger(old(accounts)@), program_id@, amount)),
        ledger(final(accounts)@) == outcome_ledger(
            deposit_outcome(ledger(old(accounts)@), program_id@, amount),
            ledger(old(accounts)@),
        ),
{
    let ghost l = ledger(accounts@);
    if accounts.len() != 3 {
        return Err(VaultError::NotEnoughAccountKeys);
    }
    if let Err(e) = require_signer(&accounts[0]) {
        return Err(e);
    }
    if let Err(e) = require_owned_by(&accounts[1], program_id) {
        return Err(e);
    }
    let vault_state = match Vault::from_account(&accounts[1]) {
        Ok(v) => v,
        Err(e) => return Err(e),
    };
    if let Err(e) = require_owner_match(&vault_state, &accounts[0]) {
        return Err(e);
    }
    if !can_transfer(&accounts[0], &accounts[1], amount, program_id, None) {
        return Err(VaultError::TransferFailed);
    }
    let new_amount = match vault_state.amount().checked_add(amount) {
        Some(v) => v,
        None => return Err(VaultError::BalanceOverflow),
    };
    let moved_ok = transfer(accounts, 0, 1, amount, program_id, None);
    // The check above is exactly the port's condition, so the move succeeds.
    assert(moved_ok is Ok);
    let ghost m = ledger(accounts@);
    assert(m[1] == accounts@[1]@);
    Vault::write_amount(&mut accounts[1].data, new_amount);
    assert(ledger(accounts@) =~= m.update(1, AccountModel { data: with_amount(l[1].data, new_amount), ..m[1] }));
    Ok(())
}

} // verus!
