//! Reusable checks on accounts of other programs and of this one.
use vstd::prelude::*;

use crate::account::{
    ledger, outcome_ledger, outcome_result, system_program_id, with_lamports, AccountModel,
    AccountState, SYSTEM_PROGRAM_ID,
};
use crate::transfer::{can_transfer, moved, transfer, transfer_allowed};
use crate::bytes::bytes32_eq;
use crate::error::{check_error, PinocchioError, VaultError};
use crate::pda::{
    create_address, find_address, is_found_address, program_address_of,
    seeds_view,
};

verus! {

/// The token program (`TokenkegQfeZyiNwAJbNbGKPFXCWuBvf9Ss623VQ5DA`).
pub const TOKEN_PROGRAM_ID: [u8; 32] = [
    6, 221, 246, 225, 215, 101, 161, 147, 217, 203, 225, 70, 206, 235, 121, 172, 28, 180, 133, 237,
    95, 91, 55, 145, 58, 140, 245, 133, 126, 255, 0, 169,
];

/// The token-2022 program (`TokenzQdBNbLqP5VEhdkAS6EPFLC1PHnBqCXEpPxuEb`).
pub const TOKEN_2022_PROGRAM_ID: [u8; 32] = [
    6, 221, 246, 225, 238, 117, 143, 222, 24, 66, 93, 188, 228, 108, 205, 218, 182, 26, 252, 77,
    131, 185, 13, 39, 254, 189, 249, 40, 216, 161, 139, 252,
];

/// The associated token account program (`ATokenGPvbdGVxr1b2hvZbsiqW5xWH25efTNsLJA8knL`).
pub const ASSOCIATED_TOKEN_PROGRAM_ID: [u8; 32] = [
    140, 151, 37, 143, 78, 36, 137, 241, 187, 61, 16, 41, 20, 142, 13, 131, 11, 90, 19, 153, 218,
    255, 16, 132, 4, 142, 123, 216, 219, 233, 248, 89,
];

/// Length of a mint account.
pub const MINT_LEN: usize = 82;

/// Length of a token account.
pub const TOKEN_ACCOUNT_LEN: usize = 165;

/// Where a token-2022 account with extensions stores its kind.
pub const TOKEN_2022_ACCOUNT_DISCRIMINATOR_OFFSET: usize = 165;

pub const TOKEN_2022_MINT_DISCRIMINATOR: u8 = 0x01;

pub const TOKEN_2022_TOKEN_ACCOUNT_DISCRIMINATOR: u8 = 0x02;

pub open spec fn check_result(failure: Option<PinocchioError>) -> Result<(), VaultError> {
    match failure {
        Some(e) => Err(check_error(e)),
        None => Ok(()),
    }
}

/// The payload of a token-2022 account of the given base length and kind:
/// either exactly the base layout, or a longer one that names its kind.
pub open spec fn token_2022_shape(data: Seq<u8>, base_len: nat, kind: u8) -> bool {
    data.len() == base_len || (data.len() > 165 && data[165] == kind)
}

pub open spec fn owned_check(a: AccountModel, program: Seq<u8>, len: nat) -> Option<PinocchioError> {
    if a.owner != program {
        Some(PinocchioError::InvalidOwner)
    } else if a.data.len() != len {
        Some(PinocchioError::InvalidAccountData)
    } else {
        None
    }
}

pub open spec fn token_2022_check(a: AccountModel, base_len: nat, kind: u8) -> Option<PinocchioError> {
    if a.owner != TOKEN_2022_PROGRAM_ID@ {
        Some(PinocchioError::InvalidOwner)
    } else if !token_2022_shape(a.data, base_len, kind) {
        Some(PinocchioError::InvalidAccountData)
    } else {
        None
    }
}

/// Either program's account of the given base length and token-2022 kind.
pub open spec fn interface_check(a: AccountModel, base_len: nat, kind: u8) -> Option<PinocchioError> {
    if a.owner == TOKEN_2022_PROGRAM_ID@ {
        token_2022_check(a, base_len, kind)
    } else {
        owned_check(a, TOKEN_PROGRAM_ID@, base_len)
    }
}

/// Fails unless the account authorized the call.
pub fn signer_check(account: &AccountState) -> (r: Result<(), VaultError>)
    ensures
        r == check_result(if account.is_signer { None } else { Some(PinocchioError::NotSigner) }),
{
    if !account.is_signer() {
        return Err(VaultError::from(PinocchioError::NotSigner));
    }
    Ok(())
}

/// Fails unless the account is controlled by the system program.
pub fn system_account_check(account: &AccountState) -> (r: Result<(), VaultError>)
    ensures
        r == check_result(
            if account.owner@ == system_program_id() {
                None
            } else {
                Some(PinocchioError::InvalidOwner)
            },
        ),
{
    assert(SYSTEM_PROGRAM_ID@ =~= system_program_id());
    if !account.owned_by(&SYSTEM_PROGRAM_ID) {
        return Err(VaultError::from(PinocchioError::InvalidOwner));
    }
    Ok(())
}

/// Fails unless `account` is controlled by `program` and holds `len` bytes.
fn owned_with_len(account: &AccountState, program: &[u8; 32], len: usize) -> (r: Result<(), VaultError>)
    ensures
        r == check_result(owned_check(account@, program@, len as nat)),
{
    if !account.owned_by(program) {
        return Err(VaultError::from(PinocchioError::InvalidOwner));
    }
    if account.data_len() != len {
        return Err(VaultError::from(PinocchioError::InvalidAccountData));
    }
    Ok(())
}

/// Fails unless `account` is a token-2022 account of the given base length and kind.
fn token_2022_with_kind(account: &AccountState, base_len: usize, kind: u8) -> (r: Result<(), VaultError>)
    ensures
        r == check_result(token_2022_check(account@, base_len as nat, kind)),
{
    if !account.owned_by(&TOKEN_2022_PROGRAM_ID) {
        return Err(VaultError::from(PinocchioError::InvalidOwner));
    }
    let data = &account.data;
    if data.len() != base_len {
        if data.len() <= TOKEN_2022_ACCOUNT_DISCRIMINATOR_OFFSET {
            return Err(VaultError::from(PinocchioError::InvalidAccountData));
        }
        if data[TOKEN_2022_ACCOUNT_DISCRIMINATOR_OFFSET] != kind {
            return Err(VaultError::from(PinocchioError::InvalidAccountData));
        }
    }
    Ok(())
}

/// Fails unless `account` is an account of either token program.
fn interface_with_kind(account: &AccountState, base_len: usize, kind: u8) -> (r: Result<(), VaultError>)
    ensures
        r == check_result(interface_check(account@, base_len as nat, kind)),
{
    if account.owned_by(&TOKEN_2022_PROGRAM_ID) {
        token_2022_with_kind(account, base_len, kind)
    } else {
        owned_with_len(account, &TOKEN_PROGRAM_ID, base_len)
    }
}

/// Mint accounts of the token program.
pub struct Mint;

impl Mint {
    pub fn check(account: &AccountState) -> (r: Result<(), VaultError>)
        ensures
            r == check_result(owned_check(account@, TOKEN_PROGRAM_ID@, 82)),
    {
        owned_with_len(account, &TOKEN_PROGRAM_ID, MINT_LEN)
    }
}

/// Token accounts of the token program.
pub struct Token;

impl Token {
    pub fn check(account: &AccountState) -> (r: Result<(), VaultError>)
        ensures
            r == check_result(owned_check(account@, TOKEN_PROGRAM_ID@, 165)),
    {
        owned_with_len(account, &TOKEN_PROGRAM_ID, TOKEN_ACCOUNT_LEN)
    }
}

/// Mint accounts of the token-2022 program.
pub struct Mint2022;

impl Mint2022 {
    pub fn check(account: &AccountState) -> (r: Result<(), VaultError>)
        ensures
            r == check_result(token_2022_check(account@, 82, 1)),
    {
        token_2022_with_kind(account, MINT_LEN, TOKEN_2022_MINT_DISCRIMINATOR)
    }
}

/// Token accounts of the token-2022 program.
pub struct Token2022;

impl Token2022 {
    pub fn check(account: &AccountState) -> (r: Result<(), VaultError>)
        ensures
            r == check_result(token_2022_check(account@, 165, 2)),
    {
        token_2022_with_kind(account, TOKEN_ACCOUNT_LEN, TOKEN_2022_TOKEN_ACCOUNT_DISCRIMINATOR)
    }
}

/// Mint accounts of either token program.
pub struct MintInterface;

impl MintInterface {
    pub fn check(account: &AccountState) -> (r: Result<(), VaultError>)
        ensures
            r == check_result(interface_check(account@, 82, 1)),
    {
        interface_with_kind(account, MINT_LEN, TOKEN_2022_MINT_DISCRIMINATOR)
    }
}

/// Token accounts of either token program.
pub struct TokenInterface;

impl TokenInterface {
    pub fn check(account: &AccountState) -> (r: Result<(), VaultError>)
        ensures
            r == check_result(interface_check(account@, 165, 2)),
    {
        interface_with_kind(account, TOKEN_ACCOUNT_LEN, TOKEN_2022_TOKEN_ACCOUNT_DISCRIMINATOR)
    }
}

/// The associated token account of `authority` for `mint` under `token_program`
/// is `address`: the canonical program address of those three seeds.
pub open spec fn is_associated_address(
    address: Seq<u8>,
    authority: Seq<u8>,
    token_program: Seq<u8>,
    mint: Seq<u8>,
) -> bool {
    exists|b: u8|
        is_found_address(
            seq![authority, token_program, mint],
            ASSOCIATED_TOKEN_PROGRAM_ID@,
            address,
            b,
        )
}

/// Associated token accounts.
pub struct AssociatedToken;

impl AssociatedToken {
    /// Fails unless `account` is a token account at the associated address of
    /// `authority`, `mint` and `token_program`.
    pub fn check(
        account: &AccountState,
        authority: &AccountState,
        mint: &AccountState,
        token_program: &AccountState,
    ) -> (r: Result<(), VaultError>)
        ensures
            owned_check(account@, TOKEN_PROGRAM_ID@, 165) is Some ==> r == check_result(
                owned_check(account@, TOKEN_PROGRAM_ID@, 165),
            ),
            owned_check(account@, TOKEN_PROGRAM_ID@, 165) is None ==> (r is Ok <==> is_associated_address(
                account.address@,
                authority.address@,
                token_program.address@,
                mint.address@,
            )),
            r is Err ==> owned_check(account@, TOKEN_PROGRAM_ID@, 165) is Some || r == Err::<(), VaultError>(
                VaultError::AddressMismatch,
            ),
    {
        match Token::check(account) {
            Ok(()) => {},
            Err(e) => return Err(e),
        }
        let mut seeds: Vec<Vec<u8>> = Vec::new();
        seeds.push(vstd::slice::slice_to_vec(&authority.address));
        seeds.push(vstd::slice::slice_to_vec(&token_program.address));
        seeds.push(vstd::slice::slice_to_vec(&mint.address));
        let ghost s = seq![authority.address@, token_program.address@, mint.address@];
        assert(crate::pda::seeds_view(seeds@) =~= s);
        match find_address(&seeds, &ASSOCIATED_TOKEN_PROGRAM_ID) {
            Some((found, bump)) => {
                if !bytes32_eq(&found, &account.address) {
                    proof {
                        if is_associated_address(
                            account.address@,
                            authority.address@,
                            token_program.address@,
                            mint.address@,
                        ) {
                            let b2 = choose|b: u8|
                                is_found_address(s, ASSOCIATED_TOKEN_PROGRAM_ID@, account.address@, b);
                            crate::laws::lemma_found_address_unique(
                                s,
                                ASSOCIATED_TOKEN_PROGRAM_ID@,
                                found@,
                                bump,
                                account.address@,
                                b2,
                            );
                        }
                    }
                    return Err(VaultError::from(PinocchioError::InvalidAddress));
                }
                Ok(())
            },
            None => {
                proof {
                    if is_associated_address(
                        account.address@,
                        authority.address@,
                        token_program.address@,
                        mint.address@,
                    ) {
                        let b2 = choose|b: u8|
                            is_found_address(s, ASSOCIATED_TOKEN_PROGRAM_ID@, account.address@, b);
                        assert(crate::pda::bump_address(s, b2, ASSOCIATED_TOKEN_PROGRAM_ID@) is None);
                    }
                }
                Err(VaultError::from(PinocchioError::InvalidAddress))
            },
        }
    }
}

/// What creating the account at index `account`, signed by `seeds` and funded
/// by the account at index `payer`, does to the accounts `l`.
pub open spec fn program_account_init_outcome(
    l: Seq<AccountModel>,
    payer: int,
    account: int,
    seeds: Seq<Seq<u8>>,
    space: nat,
    program_id: Seq<u8>,
    rent_minimum: u64,
) -> Result<Seq<AccountModel>, VaultError> {
    if program_address_of(seeds, program_id) != Some(l[account].address) {
        Err(VaultError::MissingSignature)
    } else if l[account].lamports != 0 || l[account].data.len() != 0 || l[account].owner
        != system_program_id() {
        Err(VaultError::AccountAlreadyInUse)
    } else if !transfer_allowed(l[payer], l[account], rent_minimum, program_id, None) {
        Err(VaultError::TransferFailed)
    } else {
        let m = moved(l, payer, account, rent_minimum);
        Ok(
            m.update(
                account,
                AccountModel {
                    owner: program_id,
                    data: Seq::new(space, |_i: int| 0u8),
                    ..m[account]
                },
            ),
        )
    }
}

/// What closing the account at index `account` into the one at `destination`
/// does to the accounts `l`.
pub open spec fn program_account_close_outcome(
    l: Seq<AccountModel>,
    account: int,
    destination: int,
    program_id: Seq<u8>,
) -> Result<Seq<AccountModel>, VaultError> {
    if l[account].owner != program_id {
        Err(VaultError::IllegalOwner)
    } else if l[account].data.len() == 0 {
        Err(VaultError::InvalidAccountData)
    } else if l[destination].lamports + l[account].lamports > u64::MAX {
        Err(VaultError::BalanceOverflow)
    } else {
        let credited = with_lamports(l[destination], l[destination].lamports + l[account].lamports);
        let closed = AccountModel {
            owner: system_program_id(),
            lamports: 0,
            data: Seq::empty(),
            ..l[account]
        };
        Ok(l.update(destination, credited).update(account, closed))
    }
}

/// Accounts controlled by this program.
pub struct ProgramAccount;

impl ProgramAccount {
    pub fn check<const LEN: usize>(account: &AccountState, program_id: &[u8; 32]) -> (r: Result<(), VaultError>)
        ensures
            r == check_result(owned_check(account@, program_id@, LEN as nat)),
    {
        owned_with_len(account, program_id, LEN)
    }

    /// Creates `accounts[account]` with `space` zero bytes under `program_id`,
    /// funded by `accounts[payer]` with `rent_minimum`; the account signs
    /// through its derivation from `seeds`.
    pub fn init(
        accounts: &mut Vec<AccountState>,
        payer: usize,
        account: usize,
        seeds: &Vec<Vec<u8>>,
        space: usize,
        program_id: &[u8; 32],
        rent_minimum: u64,
    ) -> (r: Result<(), VaultError>)
        requires
            payer < old(accounts)@.len(),
            account < old(accounts)@.len(),
            payer != account,
        ensures
            r == outcome_result(
                program_account_init_outcome(
                    ledger(old(accounts)@),
                    payer as int,
                    account as int,
                    seeds_view(seeds@),
                    space as nat,
                    program_id@,
                    rent_minimum,
                ),
            ),
            ledger(final(accounts)@) == outcome_ledger(
                program_account_init_outcome(
                    ledger(old(accounts)@),
                    payer as int,
                    account as int,
                    seeds_view(seeds@),
                    space as nat,
                    program_id@,
                    rent_minimum,
                ),
                ledger(old(accounts)@),
            ),
    {
        match create_address(seeds, program_id) {
            Some(derived) => {
                if !bytes32_eq(&derived, &accounts[account].address) {
                    return Err(VaultError::MissingSignature);
                }
            },
            None => return Err(VaultError::MissingSignature),
        }
        assert(SYSTEM_PROGRAM_ID@ =~= system_program_id());
        if accounts[account].lamports() != 0 || accounts[account].data_len() != 0
            || !accounts[account].owned_by(&SYSTEM_PROGRAM_ID) {
            return Err(VaultError::AccountAlreadyInUse);
        }
        if !can_transfer(&accounts[payer], &accounts[account], rent_minimum, program_id, None) {
            return Err(VaultError::TransferFailed);
        }
        let moved_ok = transfer(accounts, payer, account, rent_minimum, program_id, None);
        // The check above is exactly the port's condition, so the move succeeds.
    assert(moved_ok is Ok);
        let ghost m = ledger(accounts@);
        assert(m[account as int] == accounts@[account as int]@);
        accounts[account].owner = *program_id;
        let zeros: Vec<u8> = vec![0u8; space];
        assert(zeros@ =~= Seq::new(space as nat, |_i: int| 0u8));
        accounts[account].data = zeros;
        assert(ledger(accounts@) =~= m.update(
            account as int,
            AccountModel {
                owner: program_id@,
                data: Seq::new(space as nat, |_i: int| 0u8),
                ..m[account as int]
            },
        ));
        Ok(())
    }

    /// Closes `accounts[account]`: marks its payload closed, moves all its
    /// value to `accounts[destination]` and hands it back to the system program.
    pub fn close(
        accounts: &mut Vec<AccountState>,
        account: usize,
        destination: usize,
        program_id: &[u8; 32],
    ) -> (r: Result<(), VaultError>)
        requires
            account < old(accounts)@.len(),
            destination < old(accounts)@.len(),
            account != destination,
        ensures
            r == outcome_result(
                program_account_close_outcome(
                    ledger(old(accounts)@),
                    account as int,
                    destination as int,
                    program_id@,
                ),
            ),
            ledger(final(accounts)@) == outcome_ledger(
                program_account_close_outcome(
                    ledger(old(accounts)@),
                    account as int,
                    destination as int,
                    program_id@,
                ),
                ledger(old(accounts)@),
            ),
    {
        let ghost l = ledger(accounts@);
        if !accounts[account].owned_by(program_id) {
            return Err(VaultError::IllegalOwner);
        }
        if accounts[account].data_len() == 0 {
            return Err(VaultError::InvalidAccountData);
        }
        let held = accounts[account].lamports();
        if accounts[destination].lamports() > u64::MAX - held {
            return Err(VaultError::BalanceOverflow);
        }
        accounts[account].data[0] = 0xff;
        let credited = accounts[destination].lamports + held;
        accounts[destination].lamports = credited;
        accounts[account].data.truncate(1);
        accounts[account].lamports = 0;
        accounts[account].data = Vec::new();
        accounts[account].owner = SYSTEM_PROGRAM_ID;
        assert(SYSTEM_PROGRAM_ID@ =~= system_program_id());
        let ghost closed = AccountModel {
            owner: system_program_id(),
            lamports: 0,
            data: Seq::empty(),
            ..l[account as int]
        };
        assert(ledger(accounts@) =~= l.update(
            destination as int,
            with_lamports(l[destination as int], l[destination as int].lamports + l[account as int].lamports),
        ).update(account as int, closed));
        Ok(())
    }
}

} // verus!
