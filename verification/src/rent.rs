//! The ledger's rent parameters, and the balance that exempts an account from rent.
//!
//! The host publishes the parameters in the data of one well-known account: the
//! rate as a little-endian 64-bit integer, then the 8 bytes of the exemption
//! threshold, then the burn percentage.

use crate::account_info::AccountInfo;
use crate::bytes::u64_from_le_bytes;
use crate::error::ProgramError;
use solana_program::account_info::AccountInfo as HostAccountInfo;
use solana_program::pubkey::Pubkey as Address;
use solana_program::sysvar::rent::Rent as HostRent;
use solana_program::sysvar::SysvarSerialize;
use vstd::prelude::*;

verus! {

/// Address of the account that holds the rent parameters,
/// `SysvarRent111111111111111111111111111111111`.
pub const RENT_SYSVAR_ID: [u8; 32] = [
    6, 167, 213, 23, 25, 44, 92, 81, 33, 140, 201, 76, 61, 74, 241, 127, 88, 218, 238, 8, 155,
    161, 253, 68, 227, 219, 217, 138, 0, 0, 0, 0,
];

/// Number of bytes that the rent parameters take in their account.
pub const RENT_SIZE: usize = 17;

/// Bytes that the ledger stores for an account beside its data.
pub const ACCOUNT_STORAGE_OVERHEAD: u64 = 128;

/// Largest data length that the ledger permits for an account.
pub const MAX_PERMITTED_DATA_LENGTH: u64 = 10_485_760;

/// The exemption threshold of one year, as the 8 bytes the host stores for it.
pub const EXEMPTION_THRESHOLD_ONE: [u8; 8] = [0, 0, 0, 0, 0, 0, 240, 63];

/// The exemption threshold of two years, as the 8 bytes the host stores for it.
pub const EXEMPTION_THRESHOLD_TWO: [u8; 8] = [0, 0, 0, 0, 0, 0, 0, 64];

/// Largest rate for which the ledger computes a minimum balance at the threshold
/// of one year.
pub const MAX_LAMPORTS_PER_BYTE_ONE: u64 = 1_759_197_129_867;

/// Largest rate for which the ledger computes a minimum balance at the threshold
/// of two years.
pub const MAX_LAMPORTS_PER_BYTE_TWO: u64 = 879_598_564_933;

/// The rent parameters of the ledger.
#[derive(Clone, Copy, Debug, PartialEq, Eq)]
pub struct Rent {
    /// Rate, in lamports per byte.
    pub lamports_per_byte: u64,
    /// Time for which the balance must cover the rate, as the host stores it.
    pub exemption_threshold: [u8; 8],
    /// Share of collected rent that is burned, in percent.
    pub burn_percent: u8,
}

/// Whether `balance` is at least the minimum balance that the ledger computes for
/// an account of `data_len` bytes from the given rate and exemption threshold.
/// The contracts of this crate read it only where `Rent::supports` holds and the
/// threshold is neither of the two standard ones.
pub uninterp spec fn rent_exempt(
    lamports_per_byte: u64,
    exemption_threshold: Seq<u8>,
    balance: u64,
    data_len: usize,
) -> bool;

impl Rent {
    /// The parameters that the first 17 bytes of `data` encode.
    pub open spec fn decode(data: Seq<u8>) -> Rent
        recommends
            data.len() >= RENT_SIZE,
    {
        Rent {
            lamports_per_byte: u64_from_le_bytes(data.subrange(0, 8)),
            exemption_threshold: [
                data[8],
                data[9],
                data[10],
                data[11],
                data[12],
                data[13],
                data[14],
                data[15],
            ],
            burn_percent: data[16],
        }
    }

    /// What reading the parameters from `account` gives: they are read from the
    /// account at the well-known address, if it holds enough bytes.
    pub open spec fn from_account_info_spec(account: AccountInfo) -> Result<Rent, ProgramError> {
        if account.key@ == RENT_SYSVAR_ID@ && account.data@.len() >= RENT_SIZE {
            Ok(Self::decode(account.data@))
        } else {
            Err(ProgramError::InvalidArgument)
        }
    }

    /// Whether the ledger computes a minimum balance for `data_len` bytes: the
    /// length is one it permits, and the rate times the stored size stays within
    /// 64 bits.
    pub open spec fn supports(self, data_len: usize) -> bool {
        &&& data_len <= MAX_PERMITTED_DATA_LENGTH
        &&& if self.exemption_threshold@ == EXEMPTION_THRESHOLD_ONE@ {
            self.lamports_per_byte <= MAX_LAMPORTS_PER_BYTE_ONE
        } else if self.exemption_threshold@ == EXEMPTION_THRESHOLD_TWO@ {
            self.lamports_per_byte <= MAX_LAMPORTS_PER_BYTE_TWO
        } else {
            (ACCOUNT_STORAGE_OVERHEAD + data_len) * self.lamports_per_byte <= u64::MAX
        }
    }

    /// Whether `balance` exempts an account of `data_len` bytes from rent; `None`
    /// where the ledger computes no minimum balance. At the two standard thresholds
    /// the minimum balance is the rate times the stored size, once or twice.
    pub open spec fn is_exempt_spec(self, balance: u64, data_len: usize) -> Option<bool> {
        if !self.supports(data_len) {
            None
        } else if self.exemption_threshold@ == EXEMPTION_THRESHOLD_ONE@ {
            Some(balance >= (ACCOUNT_STORAGE_OVERHEAD + data_len) * self.lamports_per_byte)
        } else if self.exemption_threshold@ == EXEMPTION_THRESHOLD_TWO@ {
            Some(balance >= 2 * (ACCOUNT_STORAGE_OVERHEAD + data_len) * self.lamports_per_byte)
        } else {
            Some(rent_exempt(self.lamports_per_byte, self.exemption_threshold@, balance, data_len))
        }
    }

    /// Reads the rent parameters from the account that the host keeps them in.
    pub fn from_account_info(account: &AccountInfo) -> (r: Result<Rent, ProgramError>)
        ensures
            r == Self::from_account_info_spec(*account),
    {
        match sysvar_from_account_info(account) {
            Ok(rent) => {
                assert(rent.exemption_threshold =~= Self::decode(
                    account.data@,
                ).exemption_threshold);
                Ok(rent)
            },
            Err(code) => Err(ProgramError::from_code(code)),
        }
    }

    /// Tells whether the ledger computes a minimum balance for `data_len` bytes.
    pub fn is_supported(&self, data_len: usize) -> (r: bool)
        ensures
            r == self.supports(data_len),
    {
        if data_len as u64 > MAX_PERMITTED_DATA_LENGTH {
            return false;
        }
        if same_threshold(&self.exemption_threshold, &EXEMPTION_THRESHOLD_ONE) {
            self.lamports_per_byte <= MAX_LAMPORTS_PER_BYTE_ONE
        } else if same_threshold(&self.exemption_threshold, &EXEMPTION_THRESHOLD_TWO) {
            self.lamports_per_byte <= MAX_LAMPORTS_PER_BYTE_TWO
        } else {
            let stored: u64 = ACCOUNT_STORAGE_OVERHEAD + data_len as u64;
            match stored.checked_mul(self.lamports_per_byte) {
                Some(_) => true,
                None => false,
            }
        }
    }

    /// Tells whether `balance` exempts an account of `data_len` bytes from rent;
    /// `None` where the ledger computes no minimum balance.
    pub fn is_exempt(&self, balance: u64, data_len: usize) -> (r: Option<bool>)
        ensures
            r == self.is_exempt_spec(balance, data_len),
    {
        if self.is_supported(data_len) {
            Some(rent_is_exempt(self, balance, data_len))
        } else {
            None
        }
    }
}

/// Compares two stored thresholds byte by byte.
fn same_threshold(a: &[u8; 8], b: &[u8; 8]) -> (r: bool)
    ensures
        r == (a@ == b@),
{
    let mut i: usize = 0;
    while i < 8
        invariant
            i <= 8,
            forall|j: int| 0 <= j < i ==> a[j] == b[j],
        decreases 8 - i,
    {
        if a[i] != b[i] {
            return false;
        }
        i += 1;
    }
    assert(a@ =~= b@);
    true
}

/// Reads the rent parameters from an account.
///
/// Calls `SysvarSerialize::from_account_info` of `solana_program` for its `Rent`, on
/// a host account made of the fields of `account`. That function refuses an
/// account whose address is not the rent account's, and otherwise decodes the
/// account's data with `bincode`: 8 bytes of rate, little-endian, the 8 bytes of
/// the threshold, one byte of burn percentage, with further bytes ignored. Either
/// failure is its `InvalidArgument`, handed on here as the host's code for it.
#[verifier::external_body]
#[allow(deprecated)]
fn sysvar_from_account_info(account: &AccountInfo) -> (r: Result<Rent, u64>)
    ensures
        r is Ok <==> Rent::from_account_info_spec(*account) is Ok,
        r matches Ok(rent) ==> rent == Rent::from_account_info_spec(*account)->Ok_0,
        r matches Err(code) ==> code == ProgramError::InvalidArgument.code_spec(),
{
    let (key, owner) = (Address::from(account.key.0), Address::from(account.owner.0));
    let (mut lamports, mut data) = (account.lamports, account.data.clone());
    let (signer, writable) = (account.is_signer, account.is_writable);
    let host_account = HostAccountInfo::new(
        &key, signer, writable, &mut lamports, &mut data, &owner, account.executable,
    );
    match HostRent::from_account_info(&host_account) {
        Ok(rent) => Ok(Rent {
            lamports_per_byte: rent.lamports_per_byte,
            exemption_threshold: rent.exemption_threshold,
            burn_percent: rent.burn_percent,
        }),
        Err(error) => Err(u64::from(error)),
    }
}

/// Tells whether a balance exempts an account of a given size from rent.
///
/// Calls `Rent::is_exempt` of `solana_program` on the same three parameters. That
/// function compares the balance with its minimum balance, and panics where the
/// length is beyond the permitted one or the rate beyond the bound kept for a
/// standard threshold; with another threshold its integer product must not
/// overflow. At a standard threshold the minimum balance is the rate times the
/// stored size, once or twice. At another one it comes from floating-point
/// arithmetic on the threshold's bytes, which the contract only names; that branch
/// exists on every target but the `bpf` architecture, for which this contract
/// makes no claim.
#[verifier::external_body]
#[allow(deprecated)]
fn rent_is_exempt(rent: &Rent, balance: u64, data_len: usize) -> (r: bool)
    requires
        rent.supports(data_len),
    ensures
        r == rent_exempt(rent.lamports_per_byte, rent.exemption_threshold@, balance, data_len),
        rent.exemption_threshold@ == EXEMPTION_THRESHOLD_ONE@ ==> r == (balance >= (
        ACCOUNT_STORAGE_OVERHEAD + data_len) * rent.lamports_per_byte),
        rent.exemption_threshold@ == EXEMPTION_THRESHOLD_TWO@ ==> r == (balance >= 2 * (
        ACCOUNT_STORAGE_OVERHEAD + data_len) * rent.lamports_per_byte),
{
    HostRent {
        lamports_per_byte: rent.lamports_per_byte,
        exemption_threshold: rent.exemption_threshold,
        burn_percent: rent.burn_percent,
    }.is_exempt(balance, data_len)
}

} // verus!
