use vstd::prelude::*;
use vstd::slice::slice_subrange;
use crate::account::{AccountInfo, AccountView};
use crate::bytes::{array_from_seq, array_from_slice, arrays_equal};
use crate::error::ProgramError;
use crate::le::{read_u64_le, u64_from_le};
use crate::pubkey::Pubkey;

verus! {

/// Bytes of the identity of the rent sysvar account,
/// `SysvarRent111111111111111111111111111111111`.
pub const RENT_SYSVAR_ID: [u8; 32] = [
    6, 167, 213, 23, 25, 44, 92, 81, 33, 140, 201, 76, 61, 74, 241, 127, 88, 218, 238, 8, 155, 161,
    253, 68, 227, 219, 217, 138, 0, 0, 0, 0,
];

/// An exemption threshold of one, as the bytes of a double-precision number.
pub const UNIT_THRESHOLD: [u8; 8] = [0, 0, 0, 0, 0, 0, 240, 63];

/// An exemption threshold of two, as the bytes of a double-precision number.
pub const DOUBLE_THRESHOLD: [u8; 8] = [0, 0, 0, 0, 0, 0, 0, 64];

/// Bytes that the ledger charges for besides an account's contents.
pub const ACCOUNT_STORAGE_OVERHEAD: u64 = 128;

/// Largest size of an account's contents for which a minimum balance is defined.
pub const MAX_PERMITTED_DATA_LENGTH: u64 = 10 * 1024 * 1024;

/// Largest rate that goes with a threshold of one.
pub const UNIT_MAX_LAMPORTS_PER_BYTE: u64 = 1_759_197_129_867;

/// Largest rate that goes with a threshold of two.
pub const DOUBLE_MAX_LAMPORTS_PER_BYTE: u64 = 879_598_564_933;

/// The rent policy of the ledger, as published in the rent sysvar account.
#[derive(Debug, Copy, Clone, PartialEq, Eq)]
pub struct Rent {
    /// Lamports charged per byte of storage.
    pub lamports_per_byte: u64,
    /// Factor applied to the charge, as the bytes of a double-precision number.
    pub exemption_threshold: [u8; 8],
    /// Share of collected rent that is burned, in percent.
    pub burn_percent: u8,
}

/// The minimum balance that `Rent::minimum_balance` of `solana_program`
/// computes for a policy and a size of contents. For a threshold other than
/// one and two it multiplies in floating point, and nothing more is said of
/// the result here.
pub uninterp spec fn outside_minimum_balance(
    lamports_per_byte: u64,
    exemption_threshold: Seq<u8>,
    burn_percent: u8,
    data_len: usize,
) -> u64;

/// The identity of the rent sysvar account, from
/// `solana_program::rent::sysvar::id`. Its bytes are claimed to be those of
/// `RENT_SYSVAR_ID`.
#[verifier::external_body]
fn rent_sysvar_id() -> (id: Pubkey)
    ensures
        id@ == RENT_SYSVAR_ID@,
{
    Pubkey { bytes: solana_program::rent::sysvar::id().to_bytes() }
}

/// Asks `solana_program::rent::Rent::is_exempt` whether a balance reaches the
/// minimum balance for the size. That function panics where it defines no
/// minimum balance, which the precondition excludes. The minimum balance is
/// claimed to be the charged bytes times the rate for a threshold of one, and
/// twice that for a threshold of two.
#[verifier::external_body]
#[allow(deprecated)]
fn rent_is_exempt(rent: &Rent, balance: u64, data_len: usize) -> (exempt: bool)
    requires
        rent.spec_has_minimum_balance(data_len),
    ensures
        exempt == (balance >= outside_minimum_balance(
            rent.lamports_per_byte,
            rent.exemption_threshold@,
            rent.burn_percent,
            data_len,
        )),
        rent.exemption_threshold@ == UNIT_THRESHOLD@ ==> exempt == (balance >= (
        ACCOUNT_STORAGE_OVERHEAD + data_len) * rent.lamports_per_byte),
        rent.exemption_threshold@ == DOUBLE_THRESHOLD@ ==> exempt == (balance >= 2 * (
        ACCOUNT_STORAGE_OVERHEAD + data_len) * rent.lamports_per_byte),
{
    let policy = solana_program::rent::Rent {
        lamports_per_byte: rent.lamports_per_byte,
        exemption_threshold: rent.exemption_threshold,
        burn_percent: rent.burn_percent,
    };
    policy.is_exempt(balance, data_len)
}

impl Rent {
    /// Size of the packed policy, in bytes.
    pub const SIZE: usize = 17;

    /// The policy held in the first `SIZE` bytes of `data`: the rate in
    /// little-endian order, the threshold, and the burn percentage.
    pub open spec fn spec_unpack(data: Seq<u8>) -> Option<Rent> {
        if data.len() < Rent::SIZE {
            None
        } else {
            Some(
                Rent {
                    lamports_per_byte: u64_from_le(data.subrange(0, 8)) as u64,
                    exemption_threshold: array_from_seq::<8>(data.subrange(8, 16)),
                    burn_percent: data[16],
                },
            )
        }
    }

    /// The policy that an account publishes. Only the rent sysvar publishes one.
    pub open spec fn spec_from_account_info(account: AccountView) -> Result<Rent, ProgramError> {
        if account.key@ != RENT_SYSVAR_ID@ {
            Err(ProgramError::InvalidArgument)
        } else {
            match Rent::spec_unpack(account.data) {
                Some(rent) => Ok(rent),
                None => Err(ProgramError::InvalidArgument),
            }
        }
    }

    /// Whether a minimum balance is defined for contents of `data_len` bytes.
    pub open spec fn spec_has_minimum_balance(self, data_len: usize) -> bool {
        &&& data_len <= MAX_PERMITTED_DATA_LENGTH
        &&& self.exemption_threshold@ == UNIT_THRESHOLD@ ==> self.lamports_per_byte
            <= UNIT_MAX_LAMPORTS_PER_BYTE
        &&& self.exemption_threshold@ == DOUBLE_THRESHOLD@ ==> self.lamports_per_byte
            <= DOUBLE_MAX_LAMPORTS_PER_BYTE
        &&& (ACCOUNT_STORAGE_OVERHEAD + data_len) * self.lamports_per_byte <= u64::MAX
    }

    /// The balance from which an account with contents of `data_len` bytes is
    /// exempt from rent.
    pub open spec fn spec_minimum_balance(self, data_len: usize) -> int
        recommends
            self.spec_has_minimum_balance(data_len),
    {
        if self.exemption_threshold@ == UNIT_THRESHOLD@ {
            (ACCOUNT_STORAGE_OVERHEAD + data_len) * self.lamports_per_byte
        } else if self.exemption_threshold@ == DOUBLE_THRESHOLD@ {
            2 * (ACCOUNT_STORAGE_OVERHEAD + data_len) * self.lamports_per_byte
        } else {
            outside_minimum_balance(
                self.lamports_per_byte,
                self.exemption_threshold@,
                self.burn_percent,
                data_len,
            ) as int
        }
    }

    /// Whether an account with the given balance and size of contents is
    /// exempt from rent. It is not where no minimum balance is defined.
    pub open spec fn spec_is_exempt(self, balance: u64, data_len: usize) -> bool {
        self.spec_has_minimum_balance(data_len) && balance >= self.spec_minimum_balance(data_len)
    }

    /// Reads the policy from the first `SIZE` bytes of `data`.
    pub fn unpack(data: &[u8]) -> (r: Option<Rent>)
        ensures
            r == Rent::spec_unpack(data@),
    {
        if data.len() < Rent::SIZE {
            return None;
        }
        Some(
            Rent {
                lamports_per_byte: read_u64_le(slice_subrange(data, 0, 8)),
                exemption_threshold: array_from_slice::<8>(slice_subrange(data, 8, 16)),
                burn_percent: data[16],
            },
        )
    }

    /// Reads the policy that the rent sysvar account publishes.
    pub fn from_account_info(account: &AccountInfo) -> (r: Result<Rent, ProgramError>)
        ensures
            r == Rent::spec_from_account_info(account@),
    {
        let id = rent_sysvar_id();
        if !arrays_equal(&account.key.bytes, &id.bytes) {
            return Err(ProgramError::InvalidArgument);
        }
        match Rent::unpack(account.data.as_slice()) {
            Some(rent) => Ok(rent),
            None => Err(ProgramError::InvalidArgument),
        }
    }

    /// Whether a minimum balance is defined for contents of `data_len` bytes.
    pub fn has_minimum_balance(&self, data_len: usize) -> (defined: bool)
        ensures
            defined == self.spec_has_minimum_balance(data_len),
    {
        if data_len as u64 > MAX_PERMITTED_DATA_LENGTH {
            return false;
        }
        if arrays_equal(&self.exemption_threshold, &UNIT_THRESHOLD) {
            let fits = self.lamports_per_byte <= UNIT_MAX_LAMPORTS_PER_BYTE;
            assert(fits ==> (ACCOUNT_STORAGE_OVERHEAD + data_len) * self.lamports_per_byte
                <= u64::MAX) by (nonlinear_arith)
                requires
                    data_len <= 10 * 1024 * 1024,
                    fits ==> self.lamports_per_byte <= 1_759_197_129_867,
            ;
            return fits;
        }
        if arrays_equal(&self.exemption_threshold, &DOUBLE_THRESHOLD) {
            let fits = self.lamports_per_byte <= DOUBLE_MAX_LAMPORTS_PER_BYTE;
            assert(fits ==> (ACCOUNT_STORAGE_OVERHEAD + data_len) * self.lamports_per_byte
                <= u64::MAX) by (nonlinear_arith)
                requires
                    data_len <= 10 * 1024 * 1024,
                    fits ==> self.lamports_per_byte <= 879_598_564_933,
            ;
            return fits;
        }
        let charged = ACCOUNT_STORAGE_OVERHEAD + data_len as u64;
        charged.checked_mul(self.lamports_per_byte).is_some()
    }

    /// Whether an account with the given balance and size of contents is
    /// exempt from rent.
    pub fn is_exempt(&self, balance: u64, data_len: usize) -> (exempt: bool)
        ensures
            exempt == self.spec_is_exempt(balance, data_len),
    {
        self.has_minimum_balance(data_len) && rent_is_exempt(self, balance, data_len)
    }
}

} // verus!
