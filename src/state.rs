//! Fixed 48-byte layout of the vault record.
use vstd::prelude::*;

use crate::account::AccountState;
use crate::bytes::{bytes_eq, le_bytes, le_value, u64_from_le, u64_to_le};
use crate::error::VaultError;

verus! {

/// Magic that marks an initialized record: the bytes of `Vault!!!`.
pub const VAULT_DISCRIMINATOR: [u8; 8] = [0x56, 0x61, 0x75, 0x6c, 0x74, 0x21, 0x21, 0x21];

pub open spec fn vault_magic() -> Seq<u8> {
    seq![0x56u8, 0x61u8, 0x75u8, 0x6cu8, 0x74u8, 0x21u8, 0x21u8, 0x21u8]
}

/// The discriminator field of a record buffer.
pub open spec fn record_discriminator(d: Seq<u8>) -> Seq<u8> {
    d.subrange(0, 8)
}

/// The owner field of a record buffer.
pub open spec fn record_owner(d: Seq<u8>) -> Seq<u8> {
    d.subrange(8, 40)
}

/// The balance field of a record buffer.
pub open spec fn record_amount(d: Seq<u8>) -> nat {
    le_value(d.subrange(40, 48))
}

/// A buffer that holds an initialized vault record.
pub open spec fn is_vault_record(d: Seq<u8>) -> bool {
    d.len() == 48 && record_discriminator(d) == vault_magic()
}

/// The buffer `d` with its balance field set to `amount`.
pub open spec fn with_amount(d: Seq<u8>, amount: u64) -> Seq<u8> {
    d.subrange(0, 40) + le_bytes(amount as nat, 8)
}

/// The buffer of a freshly initialized record of `owner`.
pub open spec fn initial_record(owner: Seq<u8>) -> Seq<u8> {
    vault_magic() + owner + le_bytes(0, 8)
}

/// The decoded vault record.
pub struct Vault {
    pub discriminator: [u8; 8],
    pub owner: [u8; 32],
    pub amount: u64,
}

/// Copies `N` bytes of `data` starting at `start`.
fn read_array<const N: usize>(data: &[u8], start: usize) -> (r: [u8; N])
    requires
        start + N <= data@.len(),
    ensures
        r@ == data@.subrange(start as int, start + N),
{
    let mut out: [u8; N] = [0u8; N];
    let len = data.len();
    let mut k: usize = 0;
    while k < N
        invariant
            0 <= k <= N,
            data@.len() == len,
            start + N <= data@.len(),
            out@.len() == N,
            forall|j: int| 0 <= j < k ==> out@[j] == data@[start + j],
        decreases N - k,
    {
        out[k] = data[start + k];
        k = k + 1;
    }
    assert(out@ =~= data@.subrange(start as int, start + N));
    out
}

/// Overwrites `src@.len()` bytes of `data` starting at `start`.
fn write_bytes(data: &mut Vec<u8>, start: usize, src: &[u8])
    requires
        start + src@.len() <= old(data)@.len(),
    ensures
        final(data)@.len() == old(data)@.len(),
        final(data)@.subrange(start as int, start + src@.len()) == src@,
        forall|j: int|
            0 <= j < old(data)@.len() && !(start <= j < start + src@.len()) ==> final(data)@[j]
                == old(data)@[j],
{
    let len = data.len();
    let mut k: usize = 0;
    while k < src.len()
        invariant
            0 <= k <= src@.len(),
            data@.len() == len,
            start + src@.len() <= data@.len(),
            data@.len() == old(data)@.len(),
            forall|j: int| 0 <= j < k ==> data@[start + j] == src@[j],
            forall|j: int|
                0 <= j < old(data)@.len() && !(start <= j < start + k) ==> data@[j]
                    == old(data)@[j],
        decreases src@.len() - k,
    {
        data[start + k] = src[k];
        k = k + 1;
    }
    assert(data@.subrange(start as int, start + src@.len()) =~= src@);
}

impl Vault {
    pub const LEN: usize = 48;

    pub const DISCRIMINATOR_OFFSET: usize = 0;

    pub const OWNER_OFFSET: usize = 8;

    pub const AMOUNT_OFFSET: usize = 40;

    /// This record is what the buffer `d` holds.
    pub open spec fn decodes(&self, d: Seq<u8>) -> bool {
        &&& self.discriminator@ == record_discriminator(d)
        &&& self.owner@ == record_owner(d)
        &&& self.amount as nat == record_amount(d)
    }

    /// Decodes a 48-byte buffer without looking at its discriminator.
    pub fn from_bytes_unchecked(data: &[u8]) -> (r: Vault)
        requires
            data@.len() == 48,
        ensures
            r.decodes(data@),
    {
        let discriminator: [u8; 8] = read_array(data, 0);
        let owner: [u8; 32] = read_array(data, 8);
        let amount_bytes: [u8; 8] = read_array(data, 40);
        let amount = u64_from_le(&amount_bytes);
        Vault { discriminator, owner, amount }
    }

    /// Decodes a record buffer, rejecting one of the wrong length or magic.
    pub fn from_bytes(data: &[u8]) -> (r: Result<Vault, VaultError>)
        ensures
            data@.len() != 48 ==> r == Err::<Vault, VaultError>(VaultError::CorruptRecord),
            data@.len() == 48 && record_discriminator(data@) != vault_magic() ==> r == Err::<
                Vault,
                VaultError,
            >(VaultError::InvalidDiscriminator),
            is_vault_record(data@) ==> (r matches Ok(v) && v.decodes(data@)),
    {
        if data.len() != Self::LEN {
            return Err(VaultError::CorruptRecord);
        }
        let vault = Self::from_bytes_unchecked(data);
        if !bytes_eq(&vault.discriminator, &VAULT_DISCRIMINATOR) {
            return Err(VaultError::InvalidDiscriminator);
        }
        Ok(vault)
    }

    /// Decodes the record held by an account, without checking its magic.
    pub fn from_account_unchecked(account: &AccountState) -> (r: Vault)
        requires
            account.data@.len() == 48,
        ensures
            r.decodes(account.data@),
    {
        Self::from_bytes_unchecked(account.data.as_slice())
    }

    /// Decodes the record held by an account, checking length and magic.
    pub fn from_account(account: &AccountState) -> (r: Result<Vault, VaultError>)
        ensures
            account.data@.len() != 48 ==> r == Err::<Vault, VaultError>(VaultError::CorruptRecord),
            account.data@.len() == 48 && record_discriminator(account.data@) != vault_magic() ==> r
                == Err::<Vault, VaultError>(VaultError::InvalidDiscriminator),
            is_vault_record(account.data@) ==> (r matches Ok(v) && v.decodes(account.data@)),
    {
        Self::from_bytes(account.data.as_slice())
    }

    pub fn discriminator(&self) -> (r: [u8; 8])
        ensures
            r == self.discriminator,
    {
        self.discriminator
    }

    pub fn owner(&self) -> (r: &[u8; 32])
        ensures
            r@ == self.owner@,
    {
        &self.owner
    }

    pub fn amount(&self) -> (r: u64)
        ensures
            r == self.amount,
    {
        self.amount
    }

    /// Lays out a fresh record: magic, `owner`, zero balance.
    pub fn write_initial(data: &mut Vec<u8>, owner: &[u8; 32])
        requires
            old(data)@.len() == 48,
        ensures
            final(data)@ == initial_record(owner@),
            is_vault_record(final(data)@),
            record_owner(final(data)@) == owner@,
            record_amount(final(data)@) == 0,
    {
        write_bytes(data, 0, &VAULT_DISCRIMINATOR);
        let ghost d1 = data@;
        write_bytes(data, 8, owner);
        let ghost d2 = data@;
        let zero = u64_to_le(0);
        write_bytes(data, 40, &zero);
        assert(data@.subrange(0, 8) =~= d1.subrange(0, 8));
        assert(data@.subrange(8, 40) =~= d2.subrange(8, 40));
        assert(VAULT_DISCRIMINATOR@ == vault_magic());
        assert(data@ =~= initial_record(owner@));
    }

    /// Replaces the balance field, leaving magic and owner untouched.
    pub fn write_amount(data: &mut Vec<u8>, amount: u64)
        requires
            old(data)@.len() == 48,
        ensures
            final(data)@ == with_amount(old(data)@, amount),
            record_amount(final(data)@) == amount,
    {
        let bytes = u64_to_le(amount);
        write_bytes(data, 40, &bytes);
        assert(data@ =~= with_amount(old(data)@, amount));
    }
}

} // verus!
