//! Laws of the vault program, proved over the handlers' contracts.
use vstd::prelude::*;

use crate::account::AccountModel;
use crate::bytes::{lemma_le_value_bound, lemma_le_value_of_bytes, lemma_pow256_8, le_bytes, pow256};
use crate::error::VaultError;
use crate::instructions::decode;
use crate::instructions::deposit::deposit_outcome;
use crate::instructions::initialize::initialize_outcome;
use crate::instructions::withdraw::withdraw_outcome;
use crate::pda::{bump_address, is_found_address, vault_seeds};
use crate::state::{is_vault_record, record_amount, record_discriminator, record_owner, with_amount};
use crate::transfer::transfer_allowed;

verus! {

/// One balance-changing call made by the vault's owner.
pub enum Movement {
    Deposit(u64),
    Withdraw(u64),
}

/// What one movement does to the accounts `l`.
pub open spec fn movement_outcome(
    l: Seq<AccountModel>,
    program_id: Seq<u8>,
    bump: u8,
    op: Movement,
) -> Result<Seq<AccountModel>, VaultError> {
    match op {
        Movement::Deposit(a) => deposit_outcome(l, program_id, a),
        Movement::Withdraw(a) => withdraw_outcome(l, program_id, a, bump),
    }
}

/// The signed change a movement makes to the balance.
pub open spec fn movement_delta(op: Movement) -> int {
    match op {
        Movement::Deposit(a) => a as int,
        Movement::Withdraw(a) => -(a as int),
    }
}

/// The accounts after each movement in turn, or the first error.
pub open spec fn run_movements(
    l: Seq<AccountModel>,
    program_id: Seq<u8>,
    bump: u8,
    ops: Seq<Movement>,
) -> Result<Seq<AccountModel>, VaultError>
    decreases ops.len(),
{
    if ops.len() == 0 {
        Ok(l)
    } else {
        match movement_outcome(l, program_id, bump, ops[0]) {
            Ok(next) => run_movements(next, program_id, bump, ops.subrange(1, ops.len() as int)),
            Err(e) => Err(e),
        }
    }
}

/// Deposited total minus withdrawn total.
pub open spec fn net_movement(ops: Seq<Movement>) -> int
    decreases ops.len(),
{
    if ops.len() == 0 {
        0
    } else {
        movement_delta(ops[0]) + net_movement(ops.subrange(1, ops.len() as int))
    }
}

proof fn lemma_record_amount_of(d: Seq<u8>, v: u64)
    requires
        d.len() == 48,
    ensures
        record_amount(with_amount(d, v)) == v,
        with_amount(d, v).len() == 48,
        with_amount(d, v).subrange(0, 40) == d.subrange(0, 40),
        record_discriminator(with_amount(d, v)) == record_discriminator(d),
        record_owner(with_amount(d, v)) == record_owner(d),
{
    assert(pow256(8) == 0x1_0000_0000_0000_0000) by {
        reveal_with_fuel(pow256, 9);
    }
    lemma_le_value_of_bytes(v as nat, 8);
    let w = with_amount(d, v);
    assert(w.subrange(40, 48) =~= le_bytes(v as nat, 8));
    assert(w.subrange(0, 40) =~= d.subrange(0, 40));
    assert(w.subrange(0, 8) =~= d.subrange(0, 8));
    assert(w.subrange(8, 40) =~= d.subrange(8, 40));
}

/// A deposit or withdrawal that succeeds moves the recorded balance and the
/// vault's value counter by exactly its amount, and keeps the record valid
/// and its owner.
proof fn lemma_one_movement(l: Seq<AccountModel>, program_id: Seq<u8>, bump: u8, op: Movement)
    requires
        movement_outcome(l, program_id, bump, op) is Ok,
    ensures
        movement_outcome(l, program_id, bump, op)->Ok_0.len() == 3,
        is_vault_record(movement_outcome(l, program_id, bump, op)->Ok_0[1].data),
        record_owner(movement_outcome(l, program_id, bump, op)->Ok_0[1].data) == record_owner(
            l[1].data,
        ),
        record_amount(movement_outcome(l, program_id, bump, op)->Ok_0[1].data) == record_amount(
            l[1].data,
        ) + movement_delta(op),
        movement_outcome(l, program_id, bump, op)->Ok_0[1].lamports == l[1].lamports
            + movement_delta(op),
{
    match op {
        Movement::Deposit(a) => {
            let bal = (record_amount(l[1].data) + a) as u64;
            lemma_record_amount_of(l[1].data, bal);
        },
        Movement::Withdraw(a) => {
            lemma_le_value_bound(l[1].data.subrange(40, 48));
            lemma_pow256_8();
            let bal = (record_amount(l[1].data) - a) as u64;
            lemma_record_amount_of(l[1].data, bal);

        },
    }
}

/// Round trip: after any run of deposits and withdrawals that all succeed,
/// the recorded balance has moved by exactly the deposited total minus the
/// withdrawn total, and the vault's value counter has moved with it.
pub proof fn lemma_balance_round_trip(
    l: Seq<AccountModel>,
    program_id: Seq<u8>,
    bump: u8,
    ops: Seq<Movement>,
)
    requires
        run_movements(l, program_id, bump, ops) is Ok,
    ensures
        ops.len() > 0 ==> ({
            let last = run_movements(l, program_id, bump, ops)->Ok_0;
            &&& is_vault_record(last[1].data)
            &&& record_amount(last[1].data) == record_amount(l[1].data) + net_movement(ops)
            &&& last[1].lamports == l[1].lamports + net_movement(ops)
        }),
    decreases ops.len(),
{
    if ops.len() > 0 {
        lemma_one_movement(l, program_id, bump, ops[0]);
        let next = movement_outcome(l, program_id, bump, ops[0])->Ok_0;
        let rest = ops.subrange(1, ops.len() as int);
        lemma_balance_round_trip(next, program_id, bump, rest);
        if rest.len() == 0 {
            assert(run_movements(next, program_id, bump, rest) == Ok::<Seq<AccountModel>, VaultError>(next));
            assert(net_movement(rest) == 0);
        }
    }
}

/// Initialize is create-once: on accounts where it succeeded, running it again
/// fails because the vault's storage is in use.
pub proof fn lemma_initialize_twice_fails(
    l: Seq<AccountModel>,
    program_id: Seq<u8>,
    bump: u8,
    rent_minimum: u64,
)
    requires
        initialize_outcome(l, program_id, bump, rent_minimum) is Ok,
    ensures
        initialize_outcome(
            initialize_outcome(l, program_id, bump, rent_minimum)->Ok_0,
            program_id,
            bump,
            rent_minimum,
        ) == Err::<Seq<AccountModel>, VaultError>(VaultError::AccountAlreadyInUse),
{
}

/// Initialize never touches an account that already holds a record: it fails
/// and, failing, leaves the recorded balance as it was.
pub proof fn lemma_initialize_keeps_existing_record(
    l: Seq<AccountModel>,
    program_id: Seq<u8>,
    bump: u8,
    rent_minimum: u64,
)
    requires
        l.len() == 3,
        is_vault_record(l[1].data),
    ensures
        initialize_outcome(l, program_id, bump, rent_minimum) is Err,
{
}

/// A signer other than the owner stored in the record can neither deposit nor
/// withdraw, whatever the amount or salt.
pub proof fn lemma_foreign_signer_rejected(
    l: Seq<AccountModel>,
    program_id: Seq<u8>,
    amount: u64,
    bump: u8,
)
    requires
        l.len() == 3,
        l[0].is_signer,
        l[1].owner == program_id,
        is_vault_record(l[1].data),
        record_owner(l[1].data) != l[0].address,
    ensures
        deposit_outcome(l, program_id, amount) == Err::<Seq<AccountModel>, VaultError>(
            VaultError::OwnerMismatch,
        ),
        withdraw_outcome(l, program_id, amount, bump) == Err::<Seq<AccountModel>, VaultError>(
            VaultError::OwnerMismatch,
        ),
{
}

/// The owner's withdrawal of more than the recorded balance fails with
/// `InsufficientBalance`; a failed call leaves the accounts unchanged.
pub proof fn lemma_overdraw_rejected(l: Seq<AccountModel>, program_id: Seq<u8>, amount: u64, bump: u8)
    requires
        l.len() == 3,
        l[0].is_signer,
        l[1].owner == program_id,
        is_vault_record(l[1].data),
        record_owner(l[1].data) == l[0].address,
        amount > record_amount(l[1].data),
    ensures
        withdraw_outcome(l, program_id, amount, bump) == Err::<Seq<AccountModel>, VaultError>(
            VaultError::InsufficientBalance,
        ),
{
}

/// The owner's deposit that would take the recorded balance past `u64::MAX`
/// fails with `BalanceOverflow` (where the transfer itself is possible, as
/// otherwise it fails with `TransferFailed`); neither the record nor any value
/// counter changes.
pub proof fn lemma_deposit_overflow_rejected(l: Seq<AccountModel>, program_id: Seq<u8>, amount: u64)
    requires
        l.len() == 3,
        l[0].is_signer,
        l[1].owner == program_id,
        is_vault_record(l[1].data),
        record_owner(l[1].data) == l[0].address,
        transfer_allowed(l[0], l[1], amount, program_id, None),
        record_amount(l[1].data) + amount > u64::MAX,
    ensures
        deposit_outcome(l, program_id, amount) == Err::<Seq<AccountModel>, VaultError>(
            VaultError::BalanceOverflow,
        ),
{
}

/// Malformed instruction data is refused: an empty buffer, a deposit with
/// fewer than eight payload bytes, and the opcode `0xFF`.
pub proof fn lemma_malformed_data_rejected(d: Seq<u8>)
    ensures
        d.len() == 0 ==> decode(d) == Err::<crate::instructions::VaultInstruction, VaultError>(
            VaultError::InvalidInstructionData,
        ),
        d.len() > 0 && d[0] == 1 && d.len() < 9 ==> decode(d) == Err::<
            crate::instructions::VaultInstruction,
            VaultError,
        >(VaultError::InvalidInstructionData),
        d.len() > 0 && d[0] == 0xFF ==> decode(d) == Err::<
            crate::instructions::VaultInstruction,
            VaultError,
        >(VaultError::InvalidInstructionData),
{
}

/// The search over salts has one answer: two addresses it finds for the same
/// seeds and program are equal, and so are their salts.
pub proof fn lemma_found_address_unique(
    seeds: Seq<Seq<u8>>,
    program_id: Seq<u8>,
    a1: Seq<u8>,
    b1: u8,
    a2: Seq<u8>,
    b2: u8,
)
    requires
        is_found_address(seeds, program_id, a1, b1),
        is_found_address(seeds, program_id, a2, b2),
    ensures
        a1 == a2,
        b1 == b2,
{
    if b1 < b2 {
        assert(bump_address(seeds, b2, program_id) is None);
    }
    if b2 < b1 {
        assert(bump_address(seeds, b1, program_id) is None);
    }
}

/// Address derivation is a function of owner and program alone: two searches
/// find the same address and salt, that address verifies under its salt, and
/// no larger salt yields an address at all.
pub proof fn lemma_derivation_is_pure(
    owner: Seq<u8>,
    program_id: Seq<u8>,
    a1: Seq<u8>,
    b1: u8,
    a2: Seq<u8>,
    b2: u8,
)
    requires
        is_found_address(vault_seeds(owner), program_id, a1, b1),
        is_found_address(vault_seeds(owner), program_id, a2, b2),
    ensures
        a1 == a2,
        b1 == b2,
        bump_address(vault_seeds(owner), b1, program_id) == Some(a1),
        forall|c: u8| b1 < c ==> (#[trigger] bump_address(vault_seeds(owner), c, program_id)) is None,
{
    lemma_found_address_unique(vault_seeds(owner), program_id, a1, b1, a2, b2);
}

} // verus!
