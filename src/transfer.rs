//! The value-transfer port: moves value between two accounts of a call.
//!
//! Two backends give the same effect. An account without payload bytes is
//! debited through the system transfer, which needs the source's signature
//! or its derived signing capability; an account that carries a payload is
//! debited directly, which only its controlling program may do.
use vstd::prelude::*;

use crate::account::{ledger, system_program_id, with_lamports, AccountModel, AccountState, SYSTEM_PROGRAM_ID};
use crate::error::VaultError;

verus! {

/// How value leaves its source account.
#[derive(Debug, Clone, Copy, PartialEq, Eq, Structural)]
pub enum TransferBackend {
    /// The generic transfer primitive, for a source that holds no payload.
    SystemTransfer,
    /// Direct debit and credit of the two value counters.
    DirectDebit,
}

pub open spec fn backend_for(source: AccountModel) -> TransferBackend {
    if source.data.len() == 0 {
        TransferBackend::SystemTransfer
    } else {
        TransferBackend::DirectDebit
    }
}

/// The transfer port accepts moving `amount` from `from` to `to` on behalf of
/// `program_id`, where `authority` is the address whose derived signing
/// capability the caller holds, if any.
pub open spec fn transfer_allowed(
    from: AccountModel,
    to: AccountModel,
    amount: u64,
    program_id: Seq<u8>,
    authority: Option<Seq<u8>>,
) -> bool {
    &&& amount <= from.lamports
    &&& to.lamports + amount <= u64::MAX
    &&& match backend_for(from) {
        TransferBackend::SystemTransfer => from.owner == system_program_id() && (from.is_signer
            || authority == Some(from.address)),
        TransferBackend::DirectDebit => from.owner == program_id,
    }
}

/// The accounts after `amount` moved from index `from` to index `to`.
pub open spec fn moved(l: Seq<AccountModel>, from: int, to: int, amount: u64) -> Seq<AccountModel> {
    l.update(from, with_lamports(l[from], l[from].lamports - amount)).update(
        to,
        with_lamports(l[to], l[to].lamports + amount),
    )
}

/// Picks the backend for debiting `source`.
pub fn select_backend(source: &AccountState) -> (r: TransferBackend)
    ensures
        r == backend_for(source@),
{
    if source.data.len() == 0 {
        TransferBackend::SystemTransfer
    } else {
        TransferBackend::DirectDebit
    }
}

/// Whether the transfer port would accept the move.
pub fn can_transfer(
    from: &AccountState,
    to: &AccountState,
    amount: u64,
    program_id: &[u8; 32],
    authority: Option<&[u8; 32]>,
) -> (r: bool)
    ensures
        r == transfer_allowed(
            from@,
            to@,
            amount,
            program_id@,
            match authority {
                Some(a) => Some(a@),
                None => None,
            },
        ),
{
    if from.lamports < amount || to.lamports > u64::MAX - amount {
        return false;
    }
    match select_backend(from) {
        TransferBackend::SystemTransfer => {
            assert(SYSTEM_PROGRAM_ID@ =~= system_program_id());
            if !from.owned_by(&SYSTEM_PROGRAM_ID) {
                return false;
            }
            match authority {
                Some(a) => from.is_signer || crate::bytes::bytes32_eq(a, &from.address),
                None => from.is_signer,
            }
        },
        TransferBackend::DirectDebit => from.owned_by(program_id),
    }
}

/// Moves `amount` from `accounts[from]` to `accounts[to]`, or fails with
/// `TransferFailed` and changes nothing.
pub fn transfer(
    accounts: &mut Vec<AccountState>,
    from: usize,
    to: usize,
    amount: u64,
    program_id: &[u8; 32],
    authority: Option<&[u8; 32]>,
) -> (r: Result<(), VaultError>)
    requires
        from < old(accounts)@.len(),
        to < old(accounts)@.len(),
        from != to,
    ensures
        r is Ok <==> transfer_allowed(
            ledger(old(accounts)@)[from as int],
            ledger(old(accounts)@)[to as int],
            amount,
            program_id@,
            match authority {
                Some(a) => Some(a@),
                None => None,
            },
        ),
        final(accounts)@.len() == old(accounts)@.len(),
        r is Ok ==> ledger(final(accounts)@) == moved(ledger(old(accounts)@), from as int, to as int, amount),
        r is Err ==> r == Err::<(), VaultError>(VaultError::TransferFailed) && final(accounts)@ == old(accounts)@,
{
    if !can_transfer(&accounts[from], &accounts[to], amount, program_id, authority) {
        return Err(VaultError::TransferFailed);
    }
    let ghost l0 = ledger(accounts@);
    let debited = accounts[from].lamports - amount;
    accounts[from].lamports = debited;
    let credited = accounts[to].lamports + amount;
    accounts[to].lamports = credited;
    assert(ledger(accounts@) =~= moved(l0, from as int, to as int, amount));
    Ok(())
}

} // verus!
