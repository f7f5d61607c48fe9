use vault::account::{AccountState, SYSTEM_PROGRAM_ID};
use vault::bytes::{u64_from_le, u64_to_le};
use vault::error::{PinocchioError, VaultError};
use vault::guards::{
    require_owned_by, require_owner_match, require_signer, require_sufficient_balance,
};
use vault::helpers::{
    signer_check, system_account_check, AssociatedToken, Mint, Mint2022, MintInterface,
    ProgramAccount, Token, Token2022, TokenInterface, ASSOCIATED_TOKEN_PROGRAM_ID,
    TOKEN_2022_PROGRAM_ID, TOKEN_PROGRAM_ID,
};
use vault::instructions::{deposit, initialize, withdraw, VaultInstruction};
use vault::pda::{create_address, find_address, find_vault_address, verify_vault_address};
use vault::processor::Processor;
use vault::state::{Vault, VAULT_DISCRIMINATOR};
use vault::transfer::{can_transfer, select_backend, transfer, TransferBackend};

const PROGRAM_ID: [u8; 32] = [9u8; 32];
const RENT_48: u64 = 1_224_960;

fn key(tag: u8) -> [u8; 32] {
    let mut k = [0u8; 32];
    for (i, b) in k.iter_mut().enumerate() {
        *b = tag.wrapping_mul(17).wrapping_add(i as u8 * 3).wrapping_add(5);
    }
    k
}

fn system_account(address: [u8; 32], lamports: u64, is_signer: bool) -> AccountState {
    AccountState {
        address,
        owner: SYSTEM_PROGRAM_ID,
        lamports,
        data: Vec::new(),
        is_signer,
        is_writable: true,
    }
}

fn record(owner: &[u8; 32], amount: u64) -> Vec<u8> {
    let mut data = VAULT_DISCRIMINATOR.to_vec();
    data.extend_from_slice(owner);
    data.extend_from_slice(&amount.to_le_bytes());
    data
}

fn vault_account(address: [u8; 32], owner: &[u8; 32], amount: u64, lamports: u64) -> AccountState {
    AccountState {
        address,
        owner: PROGRAM_ID,
        lamports,
        data: record(owner, amount),
        is_signer: false,
        is_writable: true,
    }
}

/// Owner with `owner_lamports`, a fresh vault at its derived address, the system program.
fn fresh(owner_tag: u8, owner_lamports: u64) -> (Vec<AccountState>, u8) {
    let owner = key(owner_tag);
    let (vault, bump) = find_vault_address(&owner, &PROGRAM_ID).unwrap();
    let accounts = vec![
        system_account(owner, owner_lamports, true),
        system_account(vault, 0, false),
        system_account(SYSTEM_PROGRAM_ID, 1, false),
    ];
    (accounts, bump)
}

fn amount_of(a: &AccountState) -> u64 {
    Vault::from_account(a).unwrap().amount()
}

fn snapshot(accounts: &[AccountState]) -> Vec<([u8; 32], [u8; 32], u64, Vec<u8>)> {
    accounts.iter().map(|a| (a.address, a.owner, a.lamports, a.data.clone())).collect()
}

#[test]
fn lifecycle_scenario_initialize_deposit_withdraw_overdraw() {
    let (mut accounts, bump) = fresh(1, 50_000_000);
    let owner = accounts[0].address;
    initialize::handler(&PROGRAM_ID, &mut accounts, bump, RENT_48).unwrap();
    let v = Vault::from_account(&accounts[1]).unwrap();
    assert_eq!(v.discriminator(), VAULT_DISCRIMINATOR);
    assert_eq!(v.owner(), &owner);
    assert_eq!(v.amount(), 0);
    assert_eq!(accounts[1].owner, PROGRAM_ID);
    assert_eq!(accounts[1].lamports, RENT_48);
    assert_eq!(accounts[0].lamports, 50_000_000 - RENT_48);

    deposit::handler(&PROGRAM_ID, &mut accounts, 10_000_000).unwrap();
    assert_eq!(amount_of(&accounts[1]), 10_000_000);

    let before = accounts[0].lamports;
    withdraw::handler(&PROGRAM_ID, &mut accounts, 4_000_000, bump).unwrap();
    assert_eq!(amount_of(&accounts[1]), 6_000_000);
    assert_eq!(accounts[0].lamports, before + 4_000_000);
    assert_eq!(accounts[1].lamports, RENT_48 + 6_000_000);

    let snap = snapshot(&accounts);
    let r = withdraw::handler(&PROGRAM_ID, &mut accounts, 10_000_000, bump);
    assert_eq!(r, Err(VaultError::InsufficientBalance));
    assert_eq!(snapshot(&accounts), snap);
}

#[test]
fn initialize_twice_fails_and_keeps_balance() {
    let (mut accounts, bump) = fresh(2, 50_000_000);
    initialize::handler(&PROGRAM_ID, &mut accounts, bump, RENT_48).unwrap();
    deposit::handler(&PROGRAM_ID, &mut accounts, 777).unwrap();
    let snap = snapshot(&accounts);
    let r = initialize::handler(&PROGRAM_ID, &mut accounts, bump, RENT_48);
    assert_eq!(r, Err(VaultError::AccountAlreadyInUse));
    assert_eq!(snapshot(&accounts), snap);
    assert_eq!(amount_of(&accounts[1]), 777);
}

#[test]
fn initialize_prefunded_account_tops_up_to_rent() {
    let (mut accounts, bump) = fresh(3, 50_000_000);
    accounts[1].lamports = 1_000_000;
    initialize::handler(&PROGRAM_ID, &mut accounts, bump, RENT_48).unwrap();
    assert_eq!(accounts[1].lamports, RENT_48);
    assert_eq!(accounts[0].lamports, 50_000_000 - (RENT_48 - 1_000_000));
}

#[test]
fn initialize_errors() {
    let (mut accounts, bump) = fresh(4, 50_000_000);
    accounts[0].is_signer = false;
    assert_eq!(
        initialize::handler(&PROGRAM_ID, &mut accounts, bump, RENT_48),
        Err(VaultError::MissingSignature)
    );
    accounts[0].is_signer = true;
    accounts[1].address = key(99);
    assert_eq!(
        initialize::handler(&PROGRAM_ID, &mut accounts, bump, RENT_48),
        Err(VaultError::AddressMismatch)
    );
    let (mut accounts, bump) = fresh(5, 10);
    assert_eq!(
        initialize::handler(&PROGRAM_ID, &mut accounts, bump, RENT_48),
        Err(VaultError::TransferFailed)
    );
    accounts.pop();
    assert_eq!(
        initialize::handler(&PROGRAM_ID, &mut accounts, bump, RENT_48),
        Err(VaultError::NotEnoughAccountKeys)
    );
}

#[test]
fn wrong_salt_fails_address_check() {
    let (mut accounts, bump) = fresh(6, 50_000_000);
    let wrong = if bump == 255 { 254 } else { bump.wrapping_add(1) };
    assert_eq!(
        initialize::handler(&PROGRAM_ID, &mut accounts, wrong, RENT_48),
        Err(VaultError::AddressMismatch)
    );
    initialize::handler(&PROGRAM_ID, &mut accounts, bump, RENT_48).unwrap();
    deposit::handler(&PROGRAM_ID, &mut accounts, 100).unwrap();
    assert_eq!(
        withdraw::handler(&PROGRAM_ID, &mut accounts, 50, wrong),
        Err(VaultError::AddressMismatch)
    );
    assert_eq!(amount_of(&accounts[1]), 100);
}

#[test]
fn derivation_is_pure_and_verifies() {
    let owner = key(7);
    let (a1, b1) = find_vault_address(&owner, &PROGRAM_ID).unwrap();
    let (a2, b2) = find_vault_address(&owner, &PROGRAM_ID).unwrap();
    assert_eq!((a1, b1), (a2, b2));
    assert!(verify_vault_address(&a1, &owner, b1, &PROGRAM_ID));
    assert!(!verify_vault_address(&a1, &owner, b1.wrapping_sub(1), &PROGRAM_ID));
    assert!(!verify_vault_address(&a1, &key(8), b1, &PROGRAM_ID));
    assert!(!verify_vault_address(&a1, &owner, b1, &[3u8; 32]));
    let other = find_vault_address(&key(8), &PROGRAM_ID).unwrap();
    assert_ne!(other.0, a1);
}

#[test]
fn general_derivation_matches_vault_derivation() {
    let owner = key(10);
    let (vault, bump) = find_vault_address(&owner, &PROGRAM_ID).unwrap();
    let seeds = vec![b"vault".to_vec(), owner.to_vec()];
    assert_eq!(find_address(&seeds, &PROGRAM_ID), Some((vault, bump)));
    let with_bump = vec![b"vault".to_vec(), owner.to_vec(), vec![bump]];
    assert_eq!(create_address(&with_bump, &PROGRAM_ID), Some(vault));
    assert_ne!(vault, owner);
}

#[test]
fn round_trip_balance_without_drift() {
    let (mut accounts, bump) = fresh(11, u64::MAX - RENT_48 - 10);
    initialize::handler(&PROGRAM_ID, &mut accounts, bump, RENT_48).unwrap();
    let deposits = [0u64, 1, 5, 1_000_000_000];
    let withdrawals = [1u64, 0, 1_000_000_000];
    for d in deposits {
        deposit::handler(&PROGRAM_ID, &mut accounts, d).unwrap();
    }
    for w in withdrawals {
        withdraw::handler(&PROGRAM_ID, &mut accounts, w, bump).unwrap();
    }
    let net: u64 = deposits.iter().sum::<u64>() - withdrawals.iter().sum::<u64>();
    assert_eq!(amount_of(&accounts[1]), net);
    assert_eq!(accounts[1].lamports, RENT_48 + net);

    // a deposit near the top of the range, then all of it back
    let big = u64::MAX - RENT_48 - 10 - 1_000_000_005 - 100;
    deposit::handler(&PROGRAM_ID, &mut accounts, big).unwrap();
    assert_eq!(amount_of(&accounts[1]), net + big);
    withdraw::handler(&PROGRAM_ID, &mut accounts, net + big, bump).unwrap();
    assert_eq!(amount_of(&accounts[1]), 0);
    assert_eq!(accounts[1].lamports, RENT_48);
}

#[test]
fn foreign_signer_gets_owner_mismatch() {
    let owner = key(12);
    let attacker = key(13);
    let (vault, bump) = find_vault_address(&owner, &PROGRAM_ID).unwrap();
    let mut accounts = vec![
        system_account(attacker, 5_000_000_000, true),
        vault_account(vault, &owner, 1_000, 2_000_000),
        system_account(SYSTEM_PROGRAM_ID, 1, false),
    ];
    let snap = snapshot(&accounts);
    assert_eq!(
        deposit::handler(&PROGRAM_ID, &mut accounts, 1_000_000_000),
        Err(VaultError::OwnerMismatch)
    );
    assert_eq!(
        withdraw::handler(&PROGRAM_ID, &mut accounts, 500, bump),
        Err(VaultError::OwnerMismatch)
    );
    assert_eq!(snapshot(&accounts), snap);
}

#[test]
fn deposit_overflow_leaves_everything_unchanged() {
    let owner = key(14);
    let (vault, _bump) = find_vault_address(&owner, &PROGRAM_ID).unwrap();
    let mut accounts = vec![
        system_account(owner, 1_000, true),
        vault_account(vault, &owner, u64::MAX - 5, 2_000_000),
        system_account(SYSTEM_PROGRAM_ID, 1, false),
    ];
    let snap = snapshot(&accounts);
    assert_eq!(deposit::handler(&PROGRAM_ID, &mut accounts, 6), Err(VaultError::BalanceOverflow));
    assert_eq!(snapshot(&accounts), snap);
    deposit::handler(&PROGRAM_ID, &mut accounts, 5).unwrap();
    assert_eq!(amount_of(&accounts[1]), u64::MAX);
}

#[test]
fn deposit_errors() {
    let owner = key(15);
    let (vault, _bump) = find_vault_address(&owner, &PROGRAM_ID).unwrap();
    let make = || {
        vec![
            system_account(owner, 1_000, true),
            vault_account(vault, &owner, 0, 2_000_000),
            system_account(SYSTEM_PROGRAM_ID, 1, false),
        ]
    };
    let mut a = make();
    a[0].is_signer = false;
    assert_eq!(deposit::handler(&PROGRAM_ID, &mut a, 1), Err(VaultError::MissingSignature));
    let mut a = make();
    a[1].owner = SYSTEM_PROGRAM_ID;
    assert_eq!(deposit::handler(&PROGRAM_ID, &mut a, 1), Err(VaultError::IllegalOwner));
    let mut a = make();
    a[1].data.push(0);
    assert_eq!(deposit::handler(&PROGRAM_ID, &mut a, 1), Err(VaultError::CorruptRecord));
    let mut a = make();
    a[1].data[0] = 0;
    assert_eq!(deposit::handler(&PROGRAM_ID, &mut a, 1), Err(VaultError::InvalidDiscriminator));
    let mut a = make();
    assert_eq!(deposit::handler(&PROGRAM_ID, &mut a, 1_001), Err(VaultError::TransferFailed));
    let mut a = make();
    a.push(system_account(key(1), 0, false));
    assert_eq!(deposit::handler(&PROGRAM_ID, &mut a, 1), Err(VaultError::NotEnoughAccountKeys));
}

#[test]
fn decode_rejects_malformed_data() {
    assert_eq!(VaultInstruction::unpack(&[]), Err(VaultError::InvalidInstructionData));
    assert_eq!(VaultInstruction::unpack(&[0xFF]), Err(VaultError::InvalidInstructionData));
    assert_eq!(VaultInstruction::unpack(&[0]), Err(VaultError::InvalidInstructionData));
    assert_eq!(
        VaultInstruction::unpack(&[1, 1, 2, 3, 4, 5, 6, 7]),
        Err(VaultError::InvalidInstructionData)
    );
    assert_eq!(
        VaultInstruction::unpack(&[2, 1, 2, 3, 4, 5, 6, 7, 8]),
        Err(VaultError::InvalidInstructionData)
    );
    assert_eq!(VaultInstruction::unpack(&[3, 0, 0]), Err(VaultError::InvalidInstructionData));
}

#[test]
fn decode_reads_payloads() {
    assert_eq!(VaultInstruction::unpack(&[0, 254]), Ok(VaultInstruction::Initialize { bump: 254 }));
    assert_eq!(
        VaultInstruction::unpack(&[1, 0x01, 0x02, 0, 0, 0, 0, 0, 0x80]),
        Ok(VaultInstruction::Deposit { amount: 0x8000_0000_0000_0201 })
    );
    assert_eq!(
        VaultInstruction::unpack(&[2, 0xff, 0xff, 0xff, 0xff, 0xff, 0xff, 0xff, 0xff, 7, 99]),
        Ok(VaultInstruction::Withdraw { amount: u64::MAX, bump: 7 })
    );
}

#[test]
fn processor_dispatches() {
    let (mut accounts, bump) = fresh(16, 50_000_000);
    Processor::process(&PROGRAM_ID, &mut accounts, &[0, bump], RENT_48).unwrap();
    let mut data = vec![1u8];
    data.extend_from_slice(&42u64.to_le_bytes());
    Processor::process(&PROGRAM_ID, &mut accounts, &data, RENT_48).unwrap();
    assert_eq!(amount_of(&accounts[1]), 42);
    assert_eq!(
        Processor::process(&PROGRAM_ID, &mut accounts, &[1, 2], RENT_48),
        Err(VaultError::InvalidInstructionData)
    );
    let ins = VaultInstruction::Withdraw { amount: 40, bump };
    ins.process(&PROGRAM_ID, &mut accounts, RENT_48).unwrap();
    assert_eq!(amount_of(&accounts[1]), 2);
}

#[test]
fn record_layout_round_trip() {
    let owner = key(17);
    let mut data = vec![0u8; 48];
    Vault::write_initial(&mut data, &owner);
    assert_eq!(&data[0..8], &VAULT_DISCRIMINATOR);
    assert_eq!(&data[8..40], &owner);
    assert_eq!(&data[40..48], &[0u8; 8]);
    Vault::write_amount(&mut data, 0x0102_0304_0506_0708);
    assert_eq!(&data[40..48], &[8, 7, 6, 5, 4, 3, 2, 1]);
    let v = Vault::from_bytes(&data).unwrap();
    assert_eq!(v.amount(), 0x0102_0304_0506_0708);
    assert_eq!(Vault::from_bytes(&data[..47]).err(), Some(VaultError::CorruptRecord));
    data[7] = 0;
    assert_eq!(Vault::from_bytes(&data).err(), Some(VaultError::InvalidDiscriminator));
    assert_eq!(Vault::from_bytes_unchecked(&data).amount(), 0x0102_0304_0506_0708);
    assert_eq!(Vault::LEN, 48);
    assert_eq!(Vault::AMOUNT_OFFSET, 40);
}

#[test]
fn little_endian_helpers() {
    assert_eq!(u64_to_le(0x1122_3344_5566_7788), [0x88, 0x77, 0x66, 0x55, 0x44, 0x33, 0x22, 0x11]);
    assert_eq!(u64_from_le(&[1, 0, 0, 0, 0, 0, 0, 0]), 1);
    assert_eq!(u64_from_le(&[0xff; 8]), u64::MAX);
    assert_eq!(u64_from_le(&u64_to_le(123_456_789)), 123_456_789);
}

#[test]
fn both_transfer_backends_have_the_same_effect() {
    // a payload-free source pays through the system transfer
    let mut a = vec![system_account(key(20), 100, true), system_account(key(21), 5, false)];
    assert_eq!(select_backend(&a[0]), TransferBackend::SystemTransfer);
    transfer(&mut a, 0, 1, 40, &PROGRAM_ID, None).unwrap();
    assert_eq!((a[0].lamports, a[1].lamports), (60, 45));

    // a source with payload is debited directly by its program
    let mut b = vec![vault_account(key(22), &key(23), 0, 100), system_account(key(23), 5, false)];
    assert_eq!(select_backend(&b[0]), TransferBackend::DirectDebit);
    transfer(&mut b, 0, 1, 40, &PROGRAM_ID, None).unwrap();
    assert_eq!((b[0].lamports, b[1].lamports), (60, 45));

    // neither backend moves value it may not move
    assert!(!can_transfer(&b[0], &b[1], 61, &PROGRAM_ID, None));
    assert!(!can_transfer(&b[0], &b[1], 1, &[1u8; 32], None));
    let unsigned = system_account(key(24), 100, false);
    assert!(!can_transfer(&unsigned, &b[1], 1, &PROGRAM_ID, None));
    assert!(can_transfer(&unsigned, &b[1], 1, &PROGRAM_ID, Some(&key(24))));
    assert_eq!(
        transfer(&mut a, 1, 0, 46, &PROGRAM_ID, None),
        Err(VaultError::TransferFailed)
    );
}

fn owned(owner: [u8; 32], len: usize) -> AccountState {
    AccountState {
        address: key(30),
        owner,
        lamports: 1,
        data: vec![0u8; len],
        is_signer: false,
        is_writable: false,
    }
}

#[test]
fn account_checks() {
    assert_eq!(signer_check(&system_account(key(1), 0, true)), Ok(()));
    assert_eq!(signer_check(&system_account(key(1), 0, false)), Err(VaultError::MissingSignature));
    assert_eq!(system_account_check(&system_account(key(1), 0, false)), Ok(()));
    assert_eq!(system_account_check(&owned(PROGRAM_ID, 0)), Err(VaultError::IllegalOwner));

    assert_eq!(Mint::check(&owned(TOKEN_PROGRAM_ID, 82)), Ok(()));
    assert_eq!(Mint::check(&owned(TOKEN_PROGRAM_ID, 83)), Err(VaultError::InvalidAccountData));
    assert_eq!(Mint::check(&owned(PROGRAM_ID, 82)), Err(VaultError::IllegalOwner));
    assert_eq!(Token::check(&owned(TOKEN_PROGRAM_ID, 165)), Ok(()));
    assert_eq!(Token::check(&owned(TOKEN_PROGRAM_ID, 82)), Err(VaultError::InvalidAccountData));

    assert_eq!(Mint2022::check(&owned(TOKEN_2022_PROGRAM_ID, 82)), Ok(()));
    let mut ext = owned(TOKEN_2022_PROGRAM_ID, 200);
    ext.data[165] = 1;
    assert_eq!(Mint2022::check(&ext), Ok(()));
    assert_eq!(Token2022::check(&ext), Err(VaultError::InvalidAccountData));
    ext.data[165] = 2;
    assert_eq!(Token2022::check(&ext), Ok(()));
    assert_eq!(Mint2022::check(&owned(TOKEN_2022_PROGRAM_ID, 100)), Err(VaultError::InvalidAccountData));
    assert_eq!(Mint2022::check(&owned(TOKEN_PROGRAM_ID, 82)), Err(VaultError::IllegalOwner));

    assert_eq!(MintInterface::check(&owned(TOKEN_PROGRAM_ID, 82)), Ok(()));
    assert_eq!(MintInterface::check(&owned(TOKEN_2022_PROGRAM_ID, 82)), Ok(()));
    assert_eq!(MintInterface::check(&owned(PROGRAM_ID, 82)), Err(VaultError::IllegalOwner));
    assert_eq!(TokenInterface::check(&owned(TOKEN_PROGRAM_ID, 165)), Ok(()));
    assert_eq!(TokenInterface::check(&ext), Ok(()));
    assert_eq!(TokenInterface::check(&owned(TOKEN_PROGRAM_ID, 166)), Err(VaultError::InvalidAccountData));

    assert_eq!(ProgramAccount::check::<48>(&owned(PROGRAM_ID, 48), &PROGRAM_ID), Ok(()));
    assert_eq!(
        ProgramAccount::check::<48>(&owned(PROGRAM_ID, 47), &PROGRAM_ID),
        Err(VaultError::InvalidAccountData)
    );
    assert_eq!(VaultError::from(PinocchioError::InvalidAddress), VaultError::AddressMismatch);
}

#[test]
fn associated_token_check() {
    let authority = system_account(key(40), 0, false);
    let mint = owned(TOKEN_PROGRAM_ID, 82);
    let token_program = system_account(TOKEN_PROGRAM_ID, 0, false);
    let seeds = vec![authority.address.to_vec(), TOKEN_PROGRAM_ID.to_vec(), mint.address.to_vec()];
    let (ata, _) = find_address(&seeds, &ASSOCIATED_TOKEN_PROGRAM_ID).unwrap();
    let mut account = owned(TOKEN_PROGRAM_ID, 165);
    account.address = ata;
    assert_eq!(AssociatedToken::check(&account, &authority, &mint, &token_program), Ok(()));
    account.address = key(41);
    assert_eq!(
        AssociatedToken::check(&account, &authority, &mint, &token_program),
        Err(VaultError::AddressMismatch)
    );
    let wrong_len = owned(TOKEN_PROGRAM_ID, 82);
    assert_eq!(
        AssociatedToken::check(&wrong_len, &authority, &mint, &token_program),
        Err(VaultError::InvalidAccountData)
    );
}

#[test]
fn program_account_init_and_close() {
    let payer = system_account(key(50), 10_000_000, true);
    let seeds_base = vec![b"pool".to_vec(), payer.address.to_vec()];
    let (address, bump) = find_address(&seeds_base, &PROGRAM_ID).unwrap();
    let seeds = vec![b"pool".to_vec(), payer.address.to_vec(), vec![bump]];
    let mut accounts = vec![payer, system_account(address, 0, false)];
    ProgramAccount::init(&mut accounts, 0, 1, &seeds, 16, &PROGRAM_ID, 1_000_000).unwrap();
    assert_eq!(accounts[1].owner, PROGRAM_ID);
    assert_eq!(accounts[1].data, vec![0u8; 16]);
    assert_eq!(accounts[1].lamports, 1_000_000);
    assert_eq!(accounts[0].lamports, 9_000_000);
    assert_eq!(
        ProgramAccount::init(&mut accounts, 0, 1, &seeds, 16, &PROGRAM_ID, 1_000_000),
        Err(VaultError::AccountAlreadyInUse)
    );

    ProgramAccount::close(&mut accounts, 1, 0, &PROGRAM_ID).unwrap();
    assert_eq!(accounts[0].lamports, 10_000_000);
    assert_eq!(accounts[1].lamports, 0);
    assert!(accounts[1].data.is_empty());
    assert_eq!(accounts[1].owner, SYSTEM_PROGRAM_ID);
    assert_eq!(
        ProgramAccount::close(&mut accounts, 1, 0, &PROGRAM_ID),
        Err(VaultError::IllegalOwner)
    );
}

#[test]
fn guards_report_their_errors() {
    let owner = key(60);
    let acct = vault_account(key(61), &owner, 500, 1_000_000);
    let v = Vault::from_account(&acct).unwrap();
    assert_eq!(require_signer(&system_account(owner, 0, true)), Ok(()));
    assert_eq!(require_signer(&system_account(owner, 0, false)), Err(VaultError::MissingSignature));
    assert_eq!(require_owned_by(&acct, &PROGRAM_ID), Ok(()));
    assert_eq!(require_owned_by(&acct, &[1u8; 32]), Err(VaultError::IllegalOwner));
    assert_eq!(require_owner_match(&v, &system_account(owner, 0, true)), Ok(()));
    assert_eq!(
        require_owner_match(&v, &system_account(key(62), 0, true)),
        Err(VaultError::OwnerMismatch)
    );
    assert_eq!(require_sufficient_balance(&v, 500), Ok(()));
    assert_eq!(require_sufficient_balance(&v, 501), Err(VaultError::InsufficientBalance));
}
