//! Decoding of instruction data and dispatch to the handlers.
use vstd::prelude::*;

use crate::account::{ledger, outcome_ledger, outcome_result, AccountModel, AccountState};
use crate::bytes::{le_value, u64_from_le};
use crate::error::VaultError;

pub mod deposit;
pub mod initialize;
pub mod withdraw;

verus! {

/// One decoded call.
#[derive(Debug, Clone, Copy, PartialEq, Eq, Structural)]
pub enum VaultInstruction {
    /// Create the vault record. Data: `[0, bump]`.
    Initialize { bump: u8 },
    /// Deposit value into the vault. Data: `[1, amount (8 bytes LE)]`.
    Deposit { amount: u64 },
    /// Withdraw value from the vault. Data: `[2, amount (8 bytes LE), bump]`.
    Withdraw { amount: u64, bump: u8 },
}

/// The 8-byte little-endian amount that starts at offset 1.
pub open spec fn payload_amount(d: Seq<u8>) -> u64 {
    le_value(d.subrange(1, 9)) as u64
}

/// What `d` decodes to.
pub open spec fn decode(d: Seq<u8>) -> Result<VaultInstruction, VaultError> {
    if d.len() == 0 {
        Err(VaultError::InvalidInstructionData)
    } else if d[0] == 0 {
        if d.len() < 2 {
            Err(VaultError::InvalidInstructionData)
        } else {
            Ok(VaultInstruction::Initialize { bump: d[1] })
        }
    } else if d[0] == 1 {
        if d.len() < 9 {
            Err(VaultError::InvalidInstructionData)
        } else {
            Ok(VaultInstruction::Deposit { amount: payload_amount(d) })
        }
    } else if d[0] == 2 {
        if d.len() < 10 {
            Err(VaultError::InvalidInstructionData)
        } else {
            Ok(VaultInstruction::Withdraw { amount: payload_amount(d), bump: d[9] })
        }
    } else {
        Err(VaultError::InvalidInstructionData)
    }
}

/// What running `ins` does to the accounts `l`.
pub open spec fn instruction_outcome(
    ins: VaultInstruction,
    l: Seq<AccountModel>,
    program_id: Seq<u8>,
    rent_minimum: u64,
) -> Result<Seq<AccountModel>, VaultError> {
    match ins {
        VaultInstruction::Initialize { bump } => initialize::initialize_outcome(
            l,
            program_id,
            bump,
            rent_minimum,
        ),
        VaultInstruction::Deposit { amount } => deposit::deposit_outcome(l, program_id, amount),
        VaultInstruction::Withdraw { amount, bump } => withdraw::withdraw_outcome(
            l,
            program_id,
            amount,
            bump,
        ),
    }
}

/// Reads the amount at offset 1 of `data`.
fn read_amount(data: &[u8]) -> (r: u64)
    requires
        data@.len() >= 9,
    ensures
        r == payload_amount(data@),
{
    let mut bytes: [u8; 8] = [0u8; 8];
    let mut k: usize = 0;
    while k < 8
        invariant
            0 <= k <= 8,
            data@.len() >= 9,
            bytes@.len() == 8,
            forall|j: int| 0 <= j < k ==> bytes@[j] == data@[1 + j],
        decreases 8 - k,
    {
        bytes[k] = data[1 + k];
        k = k + 1;
    }
    assert(bytes@ =~= data@.subrange(1, 9));
    u64_from_le(&bytes)
}

impl VaultInstruction {
    /// Decodes instruction data; the length is checked before any payload byte is read.
    pub fn unpack(data: &[u8]) -> (r: Result<VaultInstruction, VaultError>)
        ensures
            r == decode(data@),
    {
        if data.len() == 0 {
            return Err(VaultError::InvalidInstructionData);
        }
        match data[0] {
            0 => {
                if data.len() < 2 {
                    return Err(VaultError::InvalidInstructionData);
                }
                Ok(VaultInstruction::Initialize { bump: data[1] })
            },
            1 => {
                if data.len() < 9 {
                    return Err(VaultError::InvalidInstructionData);
                }
                Ok(VaultInstruction::Deposit { amount: read_amount(data) })
            },
            2 => {
                if data.len() < 10 {
                    return Err(VaultError::InvalidInstructionData);
                }
                let amount = read_amount(data);
                Ok(VaultInstruction::Withdraw { amount, bump: data[9] })
            },
            _ => Err(VaultError::InvalidInstructionData),
        }
    }

    /// Runs the handler of this instruction on the accounts of the call.
    pub fn process(
        &self,
        program_id: &[u8; 32],
        accounts: &mut Vec<AccountState>,
        rent_minimum: u64,
    ) -> (r: Result<(), VaultError>)
        ensures
            r == outcome_result(
                instruction_outcome(*self, ledger(old(accounts)@), program_id@, rent_minimum),
            ),
            ledger(final(accounts)@) == outcome_ledger(
                instruction_outcome(*self, ledger(old(accounts)@), program_id@, rent_minimum),
                ledger(old(accounts)@),
            ),
    {
        match self {
            VaultInstruction::Initialize { bump } => initialize::handler(
                program_id,
                accounts,
                *bump,
                rent_minimum,
            ),
            VaultInstruction::Deposit { amount } => deposit::handler(program_id, accounts, *amount),
            VaultInstruction::Withdraw { amount, bump } => withdraw::handler(
                program_id,
                accounts,
                *amount,
                *bump,
            ),
        }
    }
}

} // verus!
