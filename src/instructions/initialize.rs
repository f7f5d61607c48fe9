//! Initialize: the owner creates its vault record at the derived address.
use vstd::prelude::*;

use crate::account::{
    ledger, outcome_ledger, outcome_result, system_program_id, AccountModel, AccountState,
    SYSTEM_PROGRAM_ID,
};
use crate::error::VaultError;
use crate::guards::require_signer;
use crate::pda::{bump_address, vault_seeds, verify_vault_address};
use crate::state::{initial_record, Vault};
use crate::transfer::{can_transfer, moved, transfer, transfer_allowed};

verus! {

/// The value the payer must add so that the new account holds `rent_minimum`.
pub open spec fn shortfall(rent_minimum: u64, held: u64) -> u64 {
    if held >= rent_minimum {
        0
    } else {
        (rent_minimum - held) as u64
    }
}

/// What initializing with salt `bump` does to the accounts `[payer, vault, system]`,
/// where `rent_minimum` is the least value a 48-byte account must hold.
pub open spec fn initialize_outcome(
    l: Seq<AccountModel>,
    program_id: Seq<u8>,
    bump: u8,
    rent_minimum: u64,
) -> Result<Seq<AccountModel>, VaultError> {
    if l.len() != 3 {
        Err(VaultError::NotEnoughAccountKeys)
    } else if !l[0].is_signer {
        Err(VaultError::MissingSignature)
    } else if bump_address(vault_seeds(l[0].address), bump, program_id) != Some(l[1].address) {
        Err(VaultError::AddressMismatch)
    } else if l[1].data.len() != 0 || l[1].owner != system_program_id() {
        Err(VaultError::AccountAlreadyInUse)
    } else if !transfer_allowed(
        l[0],
        l[1],
        shortfall(rent_minimum, l[1].lamports),
        program_id,
        None,
    ) {
        Err(VaultError::TransferFailed)
    } else {
        let m = moved(l, 0, 1, shortfall(rent_minimum, l[1].lamports));
        Ok(
            m.update(
                1,
                AccountModel { owner: program_id, data: initial_record(l[0].address), ..m[1] },
            ),
        )
    }
}

/// Creates the vault record of `accounts[0]` (the payer) in `accounts[1]`.
///
/// The vault's address must re-derive from the payer and `bump`; its storage
/// is funded by the payer up to `rent_minimum`, handed to `program_id` and
/// laid out with the magic, the payer as owner and a zero balance. An account
/// that already holds storage is refused, so a record is never reset.
pub fn handler(
    program_id: &[u8; 32],
    accounts: &mut Vec<AccountState>,
    bump: u8,
    rent_minimum: u64,
) -> (r: Result<(), VaultError>)
    ensures
        r == outcome_result(
            initialize_outcome(ledger(old(accounts)@), program_id@, bump, rent_minimum),
        ),
        ledger(final(accounts)@) == outcome_ledger(
            initialize_outcome(ledger(old(accounts)@), program_id@, bump, rent_minimum),
            ledger(old(accounts)@),
        ),
{
    let ghost l = ledger(accounts@);
    if accounts.len() != 3 {
        return Err(VaultError::NotEnoughAccountKeys);
    }
    if let Err(e) = require_signer(&accounts[0]) {
        return Err(e);
    }
    if !verify_vault_address(&accounts[1].address, &accounts[0].address, bump, program_id) {
        return Err(VaultError::AddressMismatch);
    }
    assert(SYSTEM_PROGRAM_ID@ =~= system_program_id());
    if accounts[1].data_len() != 0 || !accounts[1].owned_by(&SYSTEM_PROGRAM_ID) {
        return Err(VaultError::AccountAlreadyInUse);
    }
    let held = accounts[1].lamports();
    let needed: u64 = if held >= rent_minimum {
        0
    } else {
        rent_minimum - held
    };
    if !can_transfer(&accounts[0], &accounts[1], needed, program_id, None) {
        return Err(VaultError::TransferFailed);
    }
    let moved_ok = transfer(accounts, 0, 1, needed, program_id, None);
    // The check above is exactly the port's condition, so the move succeeds.
    assert(moved_ok is Ok);
    let ghost m = ledger(accounts@);
    assert(m[1] == accounts@[1]@);
    let owner = accounts[0].address;
    assert(m[0] == accounts@[0]@);
    assert(owner@ == l[0].address);
    accounts[1].owner = *program_id;
    let mut data: Vec<u8> = vec![0u8; 48];
    Vault::write_initial(&mut data, &owner);
    accounts[1].data = data;
    assert(ledger(accounts@) =~= m.update(
        1,
        AccountModel { owner: program_id@, data: initial_record(l[0].address), ..m[1] },
    ));
    Ok(())
}

} // verus!
