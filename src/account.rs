//! Plain-value model of the accounts a call operates on.
use vstd::prelude::*;

use crate::bytes::bytes32_eq;
use crate::error::VaultError;

verus! {

/// The system program's identity: 32 zero bytes.
pub const SYSTEM_PROGRAM_ID: [u8; 32] = [
    0, 0, 0, 0, 0, 0, 0, 0, 0, 0, 0, 0, 0, 0, 0, 0, 0, 0, 0, 0, 0, 0, 0, 0, 0, 0, 0, 0, 0, 0, 0, 0,
];

pub open spec fn system_program_id() -> Seq<u8> {
    Seq::new(32, |_i: int| 0u8)
}

/// What the program sees of one account handed to a call.
pub struct AccountState {
    /// The account's address.
    pub address: [u8; 32],
    /// The program that controls the account.
    pub owner: [u8; 32],
    /// Raw value counter of the account.
    pub lamports: u64,
    /// Payload bytes of the account.
    pub data: Vec<u8>,
    /// Whether the account authorized the call.
    pub is_signer: bool,
    /// Whether the call may change the account.
    pub is_writable: bool,
}

/// An account as the contracts see it.
pub struct AccountModel {
    pub address: Seq<u8>,
    pub owner: Seq<u8>,
    pub lamports: u64,
    pub data: Seq<u8>,
    pub is_signer: bool,
    pub is_writable: bool,
}

impl View for AccountState {
    type V = AccountModel;

    open spec fn view(&self) -> AccountModel {
        AccountModel {
            address: self.address@,
            owner: self.owner@,
            lamports: self.lamports,
            data: self.data@,
            is_signer: self.is_signer,
            is_writable: self.is_writable,
        }
    }
}

/// The accounts of a call as the contracts see them.
pub open spec fn ledger(accounts: Seq<AccountState>) -> Seq<AccountModel> {
    accounts.map_values(|a: AccountState| a@)
}

/// `a` with its value counter set to `lamports`.
pub open spec fn with_lamports(a: AccountModel, lamports: int) -> AccountModel {
    AccountModel { lamports: lamports as u64, ..a }
}

/// What a call returns, given the accounts it would leave or the error it fails with.
pub open spec fn outcome_result(o: Result<Seq<AccountModel>, VaultError>) -> Result<(), VaultError> {
    match o {
        Ok(_) => Ok(()),
        Err(e) => Err(e),
    }
}

/// The accounts after a call: the new ones on success, the old ones untouched on failure.
pub open spec fn outcome_ledger(
    o: Result<Seq<AccountModel>, VaultError>,
    before: Seq<AccountModel>,
) -> Seq<AccountModel> {
    match o {
        Ok(after) => after,
        Err(_) => before,
    }
}

impl AccountState {
    pub fn is_signer(&self) -> (r: bool)
        ensures
            r == self.is_signer,
    {
        self.is_signer
    }

    pub fn owned_by(&self, program_id: &[u8; 32]) -> (r: bool)
        ensures
            r == (self.owner@ == program_id@),
    {
        bytes32_eq(&self.owner, program_id)
    }

    pub fn data_len(&self) -> (r: usize)
        ensures
            r == self.data@.len(),
    {
        self.data.len()
    }

    pub fn lamports(&self) -> (r: u64)
        ensures
            r == self.lamports,
    {
        self.lamports
    }
}

} // verus!
