//! Errors that instruction processing reports to the ledger host.
//!
//! The host identifies every error by a 64-bit code. Built-in errors occupy the
//! upper half of the code: the error's ordinal, starting at 2, times 2^32. Codes
//! below 2^32 are free for a program's own errors; since code 0 means success, the
//! program error 0 travels as 2^32.

use vstd::prelude::*;

verus! {

/// Code of the program-defined error 0.
pub const CUSTOM_ZERO: u64 = 0x1_0000_0000;

/// Why an instruction failed.
#[derive(Clone, Copy, Debug, PartialEq, Eq, Structural)]
pub enum ProgramError {
    /// An error of the program's own numbering.
    Custom(u32),
    /// An argument of the instruction is not acceptable.
    InvalidArgument,
    /// The instruction payload cannot be decoded.
    InvalidInstructionData,
    /// An account's data does not have the expected shape.
    InvalidAccountData,
    /// An account's data is too small.
    AccountDataTooSmall,
    /// An account's balance is too small for the instruction.
    InsufficientFunds,
    /// An account is not held by the program it must be held by.
    IncorrectProgramId,
    /// An account that must sign the instruction did not.
    MissingRequiredSignature,
    /// The account to initialize holds a live record already.
    AccountAlreadyInitialized,
    /// The account holds no live record.
    UninitializedAccount,
    /// The instruction came with fewer accounts than it consumes.
    NotEnoughAccountKeys,
    /// An account's data is in use elsewhere.
    AccountBorrowFailed,
    /// A seed for address derivation is too long.
    MaxSeedLengthExceeded,
    /// The seeds give no program-controlled address.
    InvalidSeeds,
    /// A structured value could not be read or written.
    BorshIoError,
    /// The account's balance does not exempt it from rent.
    AccountNotRentExempt,
    /// The host does not supply the requested system variable.
    UnsupportedSysvar,
    /// The given owner is not allowed.
    IllegalOwner,
    /// The transaction allocated more account data than permitted.
    MaxAccountsDataAllocationsExceeded,
    /// An account's data was resized in a way that is not permitted.
    InvalidRealloc,
    /// The transaction ran more instructions than permitted.
    MaxInstructionTraceLengthExceeded,
    /// A built-in program consumed no compute units.
    BuiltinProgramsMustConsumeComputeUnits,
    /// An account's owner is not the expected one.
    InvalidAccountOwner,
    /// A computation left the range of its integer type.
    ArithmeticOverflow,
    /// The account cannot be changed.
    Immutable,
    /// The given authority is not the expected one.
    IncorrectAuthority,
}

impl ProgramError {
    /// The code under which the host knows this error.
    pub open spec fn code_spec(self) -> u64 {
        match self {
            ProgramError::Custom(n) => if n == 0 {
                CUSTOM_ZERO
            } else {
                n as u64
            },
            ProgramError::InvalidArgument => 0x2_0000_0000,
            ProgramError::InvalidInstructionData => 0x3_0000_0000,
            ProgramError::InvalidAccountData => 0x4_0000_0000,
            ProgramError::AccountDataTooSmall => 0x5_0000_0000,
            ProgramError::InsufficientFunds => 0x6_0000_0000,
            ProgramError::IncorrectProgramId => 0x7_0000_0000,
            ProgramError::MissingRequiredSignature => 0x8_0000_0000,
            ProgramError::AccountAlreadyInitialized => 0x9_0000_0000,
            ProgramError::UninitializedAccount => 0xa_0000_0000,
            ProgramError::NotEnoughAccountKeys => 0xb_0000_0000,
            ProgramError::AccountBorrowFailed => 0xc_0000_0000,
            ProgramError::MaxSeedLengthExceeded => 0xd_0000_0000,
            ProgramError::InvalidSeeds => 0xe_0000_0000,
            ProgramError::BorshIoError => 0xf_0000_0000,
            ProgramError::AccountNotRentExempt => 0x10_0000_0000,
            ProgramError::UnsupportedSysvar => 0x11_0000_0000,
            ProgramError::IllegalOwner => 0x12_0000_0000,
            ProgramError::MaxAccountsDataAllocationsExceeded => 0x13_0000_0000,
            ProgramError::InvalidRealloc => 0x14_0000_0000,
            ProgramError::MaxInstructionTraceLengthExceeded => 0x15_0000_0000,
            ProgramError::BuiltinProgramsMustConsumeComputeUnits => 0x16_0000_0000,
            ProgramError::InvalidAccountOwner => 0x17_0000_0000,
            ProgramError::ArithmeticOverflow => 0x18_0000_0000,
            ProgramError::Immutable => 0x19_0000_0000,
            ProgramError::IncorrectAuthority => 0x1a_0000_0000,
        }
    }

    /// The error that the host's code stands for. A code that names no built-in
    /// error is a program-defined one, taken by its low 32 bits.
    pub open spec fn from_code_spec(code: u64) -> ProgramError {
        if code == CUSTOM_ZERO {
            ProgramError::Custom(0)
        } else if code == 0x2_0000_0000 {
            ProgramError::InvalidArgument
        } else if code == 0x3_0000_0000 {
            ProgramError::InvalidInstructionData
        } else if code == 0x4_0000_0000 {
            ProgramError::InvalidAccountData
        } else if code == 0x5_0000_0000 {
            ProgramError::AccountDataTooSmall
        } else if code == 0x6_0000_0000 {
            ProgramError::InsufficientFunds
        } else if code == 0x7_0000_0000 {
            ProgramError::IncorrectProgramId
        } else if code == 0x8_0000_0000 {
            ProgramError::MissingRequiredSignature
        } else if code == 0x9_0000_0000 {
            ProgramError::AccountAlreadyInitialized
        } else if code == 0xa_0000_0000 {
            ProgramError::UninitializedAccount
        } else if code == 0xb_0000_0000 {
            ProgramError::NotEnoughAccountKeys
        } else if code == 0xc_0000_0000 {
            ProgramError::AccountBorrowFailed
        } else if code == 0xd_0000_0000 {
            ProgramError::MaxSeedLengthExceeded
        } else if code == 0xe_0000_0000 {
            ProgramError::InvalidSeeds
        } else if code == 0xf_0000_0000 {
            ProgramError::BorshIoError
        } else if code == 0x10_0000_0000 {
            ProgramError::AccountNotRentExempt
        } else if code == 0x11_0000_0000 {
            ProgramError::UnsupportedSysvar
        } else if code == 0x12_0000_0000 {
            ProgramError::IllegalOwner
        } else if code == 0x13_0000_0000 {
            ProgramError::MaxAccountsDataAllocationsExceeded
        } else if code == 0x14_0000_0000 {
            ProgramError::InvalidRealloc
        } else if code == 0x15_0000_0000 {
            ProgramError::MaxInstructionTraceLengthExceeded
        } else if code == 0x16_0000_0000 {
            ProgramError::BuiltinProgramsMustConsumeComputeUnits
        } else if code == 0x17_0000_0000 {
            ProgramError::InvalidAccountOwner
        } else if code == 0x18_0000_0000 {
            ProgramError::ArithmeticOverflow
        } else if code == 0x19_0000_0000 {
            ProgramError::Immutable
        } else if code == 0x1a_0000_0000 {
            ProgramError::IncorrectAuthority
        } else {
            ProgramError::Custom((code % 0x1_0000_0000) as u32)
        }
    }

    /// Returns the code under which the host knows this error.
    pub fn code(&self) -> (r: u64)
        ensures
            r == self.code_spec(),
            r != 0,
    {
        match self {
            ProgramError::Custom(n) => if *n == 0 {
                CUSTOM_ZERO
            } else {
                *n as u64
            },
            ProgramError::InvalidArgument => 0x2_0000_0000,
            ProgramError::InvalidInstructionData => 0x3_0000_0000,
            ProgramError::InvalidAccountData => 0x4_0000_0000,
            ProgramError::AccountDataTooSmall => 0x5_0000_0000,
            ProgramError::InsufficientFunds => 0x6_0000_0000,
            ProgramError::IncorrectProgramId => 0x7_0000_0000,
            ProgramError::MissingRequiredSignature => 0x8_0000_0000,
            ProgramError::AccountAlreadyInitialized => 0x9_0000_0000,
            ProgramError::UninitializedAccount => 0xa_0000_0000,
            ProgramError::NotEnoughAccountKeys => 0xb_0000_0000,
            ProgramError::AccountBorrowFailed => 0xc_0000_0000,
            ProgramError::MaxSeedLengthExceeded => 0xd_0000_0000,
            ProgramError::InvalidSeeds => 0xe_0000_0000,
            ProgramError::BorshIoError => 0xf_0000_0000,
            ProgramError::AccountNotRentExempt => 0x10_0000_0000,
            ProgramError::UnsupportedSysvar => 0x11_0000_0000,
            ProgramError::IllegalOwner => 0x12_0000_0000,
            ProgramError::MaxAccountsDataAllocationsExceeded => 0x13_0000_0000,
            ProgramError::InvalidRealloc => 0x14_0000_0000,
            ProgramError::MaxInstructionTraceLengthExceeded => 0x15_0000_0000,
            ProgramError::BuiltinProgramsMustConsumeComputeUnits => 0x16_0000_0000,
            ProgramError::InvalidAccountOwner => 0x17_0000_0000,
            ProgramError::ArithmeticOverflow => 0x18_0000_0000,
            ProgramError::Immutable => 0x19_0000_0000,
            ProgramError::IncorrectAuthority => 0x1a_0000_0000,
        }
    }

    /// Returns the error that the host's code stands for.
    pub fn from_code(code: u64) -> (r: ProgramError)
        ensures
            r == Self::from_code_spec(code),
    {
        if code == CUSTOM_ZERO {
            ProgramError::Custom(0)
        } else if code == 0x2_0000_0000 {
            ProgramError::InvalidArgument
        } else if code == 0x3_0000_0000 {
            ProgramError::InvalidInstructionData
        } else if code == 0x4_0000_0000 {
            ProgramError::InvalidAccountData
        } else if code == 0x5_0000_0000 {
            ProgramError::AccountDataTooSmall
        } else if code == 0x6_0000_0000 {
            ProgramError::InsufficientFunds
        } else if code == 0x7_0000_0000 {
            ProgramError::IncorrectProgramId
        } else if code == 0x8_0000_0000 {
            ProgramError::MissingRequiredSignature
        } else if code == 0x9_0000_0000 {
            ProgramError::AccountAlreadyInitialized
        } else if code == 0xa_0000_0000 {
            ProgramError::UninitializedAccount
        } else if code == 0xb_0000_0000 {
            ProgramError::NotEnoughAccountKeys
        } else if code == 0xc_0000_0000 {
            ProgramError::AccountBorrowFailed
        } else if code == 0xd_0000_0000 {
            ProgramError::MaxSeedLengthExceeded
        } else if code == 0xe_0000_0000 {
            ProgramError::InvalidSeeds
        } else if code == 0xf_0000_0000 {
            ProgramError::BorshIoError
        } else if code == 0x10_0000_0000 {
            ProgramError::AccountNotRentExempt
        } else if code == 0x11_0000_0000 {
            ProgramError::UnsupportedSysvar
        } else if code == 0x12_0000_0000 {
            ProgramError::IllegalOwner
        } else if code == 0x13_0000_0000 {
            ProgramError::MaxAccountsDataAllocationsExceeded
        } else if code == 0x14_0000_0000 {
            ProgramError::InvalidRealloc
        } else if code == 0x15_0000_0000 {
            ProgramError::MaxInstructionTraceLengthExceeded
        } else if code == 0x16_0000_0000 {
            ProgramError::BuiltinProgramsMustConsumeComputeUnits
        } else if code == 0x17_0000_0000 {
            ProgramError::InvalidAccountOwner
        } else if code == 0x18_0000_0000 {
            ProgramError::ArithmeticOverflow
        } else if code == 0x19_0000_0000 {
            ProgramError::Immutable
        } else if code == 0x1a_0000_0000 {
            ProgramError::IncorrectAuthority
        } else {
            ProgramError::Custom((code % 0x1_0000_0000) as u32)
        }
    }

    /// Every error is recovered from its own code.
    pub proof fn lemma_code_round_trip(e: ProgramError)
        ensures
            Self::from_code_spec(e.code_spec()) == e,
    {
    }

    /// Distinct errors have distinct codes.
    pub proof fn lemma_code_injective(a: ProgramError, b: ProgramError)
        requires
            a.code_spec() == b.code_spec(),
        ensures
            a == b,
    {
        Self::lemma_code_round_trip(a);
        Self::lemma_code_round_trip(b);
    }
}

} // verus!
