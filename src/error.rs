//! Errors surfaced to the caller of the vault program.
use vstd::prelude::*;

verus! {

/// Every way a vault operation can fail. None is retried internally.
#[derive(Debug, Clone, Copy, PartialEq, Eq, Structural)]
pub enum VaultError {
    /// Unknown opcode, empty buffer or short payload.
    InvalidInstructionData,
    /// The call did not supply the accounts its operation needs.
    NotEnoughAccountKeys,
    /// An account that must have authorized the call did not.
    MissingSignature,
    /// An account is controlled by a program other than the expected one.
    IllegalOwner,
    /// The record buffer is not exactly 48 bytes long.
    CorruptRecord,
    /// The record does not start with the vault magic.
    InvalidDiscriminator,
    /// An account's data does not have the expected shape.
    InvalidAccountData,
    /// The supplied address does not re-derive from the owner and salt.
    AddressMismatch,
    /// The caller is not the owner stored in the record.
    OwnerMismatch,
    /// A withdrawal exceeds the recorded balance.
    InsufficientBalance,
    /// A credit would take a balance past `u64::MAX`.
    BalanceOverflow,
    /// A debit would take a balance below zero.
    BalanceUnderflow,
    /// The value transfer primitive refused to move the value.
    TransferFailed,
    /// Storage for the account was already allocated.
    AccountAlreadyInUse,
}

/// Failures of the generic account checks.
#[derive(Debug, Clone, Copy, PartialEq, Eq, Structural)]
pub enum PinocchioError {
    NotSigner,
    InvalidOwner,
    InvalidAccountData,
    InvalidAddress,
}

/// The vault error that each account-check failure is reported as.
pub open spec fn check_error(e: PinocchioError) -> VaultError {
    match e {
        PinocchioError::NotSigner => VaultError::MissingSignature,
        PinocchioError::InvalidOwner => VaultError::IllegalOwner,
        PinocchioError::InvalidAccountData => VaultError::InvalidAccountData,
        PinocchioError::InvalidAddress => VaultError::AddressMismatch,
    }
}

impl From<PinocchioError> for VaultError {
    fn from(e: PinocchioError) -> (r: VaultError) {
        match e {
            PinocchioError::NotSigner => VaultError::MissingSignature,
            PinocchioError::InvalidOwner => VaultError::IllegalOwner,
            PinocchioError::InvalidAccountData => VaultError::InvalidAccountData,
            PinocchioError::InvalidAddress => VaultError::AddressMismatch,
        }
    }
}

impl vstd::std_specs::convert::FromSpecImpl<PinocchioError> for VaultError {
    open spec fn obeys_from_spec() -> bool {
        true
    }

    open spec fn from_spec(e: PinocchioError) -> VaultError {
        check_error(e)
    }
}

} // verus!
