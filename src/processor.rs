//! Entry point of the vault program: decode, then dispatch.
use vstd::prelude::*;

use crate::account::{ledger, outcome_ledger, AccountModel, AccountState};
use crate::error::VaultError;
use crate::instructions::{decode, instruction_outcome, VaultInstruction};

verus! {

/// What a call with instruction data `data` does to the accounts `l`.
pub open spec fn process_outcome(
    l: Seq<AccountModel>,
    program_id: Seq<u8>,
    data: Seq<u8>,
    rent_minimum: u64,
) -> Result<Seq<AccountModel>, VaultError> {
    match decode(data) {
        Ok(ins) => instruction_outcome(ins, l, program_id, rent_minimum),
        Err(e) => Err(e),
    }
}

/// The program's entry point.
pub struct Processor;

impl Processor {
    /// Decodes `data` and runs the matching handler on `accounts`.
    ///
    /// `rent_minimum` is the least value the environment requires a 48-byte
    /// account to hold; only Initialize reads it.
    pub fn process(
        program_id: &[u8; 32],
        accounts: &mut Vec<AccountState>,
        data: &[u8],
        rent_minimum: u64,
    ) -> (r: Result<(), VaultError>)
        ensures
            r == crate::account::outcome_result(
                process_outcome(ledger(old(accounts)@), program_id@, data@, rent_minimum),
            ),
            ledger(final(accounts)@) == outcome_ledger(
                process_outcome(ledger(old(accounts)@), program_id@, data@, rent_minimum),
                ledger(old(accounts)@),
            ),
    {
        let instruction = match VaultInstruction::unpack(data) {
            Ok(ins) => ins,
            Err(e) => return Err(e),
        };
        instruction.process(program_id, accounts, rent_minimum)
    }
}

} // verus!
