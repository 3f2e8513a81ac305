use escrow::account_info::AccountInfo;
use escrow::error::{ProgramError, CUSTOM_ZERO};
use escrow::invocation::AccountMeta;
use escrow::pubkey::Pubkey;
use escrow::rent::{Rent, RENT_SYSVAR_ID};
use escrow::token::{set_authority, AuthorityType, TOKEN_PROGRAM_ID};
use solana_program::program_error::ProgramError as HostError;
use solana_program::sysvar::rent::Rent as HostRent;

fn rent_account(key: Pubkey, data: Vec<u8>) -> AccountInfo {
    AccountInfo {
        key,
        is_signer: false,
        is_writable: false,
        lamports: 1_009_200,
        data,
        owner: Pubkey([0; 32]),
        executable: false,
    }
}

fn rent_data(lamports_per_byte: u64, exemption_threshold: f64, burn_percent: u8) -> Vec<u8> {
    let mut data = Vec::new();
    data.extend_from_slice(&lamports_per_byte.to_le_bytes());
    data.extend_from_slice(&exemption_threshold.to_le_bytes());
    data.push(burn_percent);
    data
}

#[allow(deprecated)]
fn host_rent(rent: &Rent) -> HostRent {
    HostRent {
        lamports_per_byte: rent.lamports_per_byte,
        exemption_threshold: rent.exemption_threshold,
        burn_percent: rent.burn_percent,
    }
}

#[test]
fn well_known_addresses_are_those_of_the_outside_crates() {
    assert_eq!(TOKEN_PROGRAM_ID, spl_token::id().to_bytes());
    assert_eq!(RENT_SYSVAR_ID, solana_program::sysvar::rent::id().to_bytes());
}

#[test]
fn rent_is_read_from_its_account() {
    let data = vec![
        0x98, 0x0D, 0, 0, 0, 0, 0, 0, 0, 0, 0, 0, 0, 0, 0, 0x40, 50,
    ];
    assert_eq!(data, rent_data(3480, 2.0, 50));
    assert_eq!(
        Rent::from_account_info(&rent_account(Pubkey(RENT_SYSVAR_ID), data)),
        Ok(Rent {
            lamports_per_byte: 3480,
            exemption_threshold: [0, 0, 0, 0, 0, 0, 0, 64],
            burn_percent: 50,
        })
    );
    let mut long = vec![1u8, 2, 3, 4, 5, 6, 7, 8, 9, 10, 11, 12, 13, 14, 15, 16, 17];
    long.extend_from_slice(&[0xFF; 20]);
    assert_eq!(
        Rent::from_account_info(&rent_account(Pubkey(RENT_SYSVAR_ID), long)),
        Ok(Rent {
            lamports_per_byte: 0x0807_0605_0403_0201,
            exemption_threshold: [9, 10, 11, 12, 13, 14, 15, 16],
            burn_percent: 17,
        })
    );
}

#[test]
fn rent_is_read_from_no_other_account() {
    let mut other = RENT_SYSVAR_ID;
    other[31] = 1;
    assert_eq!(
        Rent::from_account_info(&rent_account(Pubkey(other), rent_data(3480, 2.0, 50))),
        Err(ProgramError::InvalidArgument)
    );
    assert_eq!(
        Rent::from_account_info(&rent_account(Pubkey(RENT_SYSVAR_ID), vec![0; 16])),
        Err(ProgramError::InvalidArgument)
    );
    assert_eq!(
        Rent::from_account_info(&rent_account(Pubkey(RENT_SYSVAR_ID), vec![])),
        Err(ProgramError::InvalidArgument)
    );
}

#[test]
fn minimum_balance_at_the_standard_thresholds() {
    let two = Rent {
        lamports_per_byte: 3480,
        exemption_threshold: 2.0f64.to_le_bytes(),
        burn_percent: 50,
    };
    // 2 * (128 + 105) * 3480
    assert_eq!(two.is_exempt(1_621_680, 105), Some(true));
    assert_eq!(two.is_exempt(1_621_679, 105), Some(false));
    assert_eq!(two.is_exempt(890_880, 0), Some(true));
    assert_eq!(two.is_exempt(890_879, 0), Some(false));
    let one = Rent {
        lamports_per_byte: 6960,
        exemption_threshold: 1.0f64.to_le_bytes(),
        burn_percent: 50,
    };
    // (128 + 105) * 6960
    assert_eq!(one.is_exempt(1_621_680, 105), Some(true));
    assert_eq!(one.is_exempt(1_621_679, 105), Some(false));
    assert_eq!(one.is_exempt(u64::MAX, 10_485_760), Some(true));
}

#[test]
fn minimum_balance_at_another_threshold_is_the_hosts() {
    let rent = Rent {
        lamports_per_byte: 1000,
        exemption_threshold: 1.5f64.to_le_bytes(),
        burn_percent: 0,
    };
    let host = host_rent(&rent);
    assert_eq!(host.minimum_balance(72), 300_000);
    assert_eq!(rent.is_exempt(300_000, 72), Some(true));
    assert_eq!(rent.is_exempt(299_999, 72), Some(false));
    for (balance, len) in [(0u64, 0usize), (1, 1), (191_999, 0), (192_000, 0), (u64::MAX, 4096)] {
        assert_eq!(rent.is_exempt(balance, len), Some(host.is_exempt(balance, len)));
    }
}

#[test]
fn exemption_is_undefined_beyond_what_the_ledger_computes() {
    let two = |lamports_per_byte| Rent {
        lamports_per_byte,
        exemption_threshold: 2.0f64.to_le_bytes(),
        burn_percent: 50,
    };
    let one = |lamports_per_byte| Rent {
        lamports_per_byte,
        exemption_threshold: 1.0f64.to_le_bytes(),
        burn_percent: 50,
    };
    let other = |lamports_per_byte| Rent {
        lamports_per_byte,
        exemption_threshold: 0.5f64.to_le_bytes(),
        burn_percent: 50,
    };
    assert_eq!(two(3480).is_exempt(u64::MAX, 10_485_761), None);
    assert!(!two(3480).is_supported(10_485_761));
    assert!(two(3480).is_supported(10_485_760));
    assert_eq!(two(879_598_564_934).is_exempt(u64::MAX, 0), None);
    assert_eq!(two(879_598_564_933).is_exempt(u64::MAX, 10_485_760), Some(true));
    assert_eq!(one(1_759_197_129_868).is_exempt(u64::MAX, 0), None);
    assert_eq!(one(1_759_197_129_867).is_exempt(u64::MAX, 10_485_760), Some(true));
    // (128 + 0) * 2^57 = 2^64
    assert_eq!(other(1 << 57).is_exempt(u64::MAX, 0), None);
    assert_eq!(other((1 << 57) - 1).is_exempt(u64::MAX, 0), Some(true));
}

#[test]
fn set_authority_is_the_token_programs_instruction() {
    let token = Pubkey(TOKEN_PROGRAM_ID);
    let (account, next, owner, signer) =
        (Pubkey([1; 32]), Pubkey([2; 32]), Pubkey([3; 32]), Pubkey([4; 32]));
    let kinds = [
        (AuthorityType::MintTokens, 0u8),
        (AuthorityType::FreezeAccount, 1),
        (AuthorityType::AccountOwner, 2),
        (AuthorityType::CloseAccount, 3),
    ];
    for (kind, tag) in kinds {
        let made = set_authority(&token, &account, &next, kind, &owner, &signer).unwrap();
        let mut payload = vec![6u8, tag, 1];
        payload.extend_from_slice(&[2; 32]);
        assert_eq!(made.program_id, token);
        assert_eq!(made.data, payload);
        assert_eq!(
            made.accounts,
            vec![
                AccountMeta { pubkey: account, is_signer: false, is_writable: true },
                AccountMeta { pubkey: owner, is_signer: false, is_writable: false },
                AccountMeta { pubkey: signer, is_signer: true, is_writable: false },
            ]
        );
    }
}

#[test]
fn set_authority_is_made_for_the_token_program_only() {
    let key = Pubkey([1; 32]);
    let mut other = TOKEN_PROGRAM_ID;
    other[0] ^= 1;
    assert_eq!(
        set_authority(&Pubkey(other), &key, &key, AuthorityType::AccountOwner, &key, &key),
        Err(ProgramError::IncorrectProgramId)
    );
}

#[test]
fn error_codes_are_the_hosts() {
    let pairs = [
        (ProgramError::Custom(0), HostError::Custom(0)),
        (ProgramError::Custom(1), HostError::Custom(1)),
        (ProgramError::Custom(u32::MAX), HostError::Custom(u32::MAX)),
        (ProgramError::InvalidArgument, HostError::InvalidArgument),
        (ProgramError::InvalidInstructionData, HostError::InvalidInstructionData),
        (ProgramError::InvalidAccountData, HostError::InvalidAccountData),
        (ProgramError::AccountDataTooSmall, HostError::AccountDataTooSmall),
        (ProgramError::InsufficientFunds, HostError::InsufficientFunds),
        (ProgramError::IncorrectProgramId, HostError::IncorrectProgramId),
        (ProgramError::MissingRequiredSignature, HostError::MissingRequiredSignature),
        (ProgramError::AccountAlreadyInitialized, HostError::AccountAlreadyInitialized),
        (ProgramError::UninitializedAccount, HostError::UninitializedAccount),
        (ProgramError::NotEnoughAccountKeys, HostError::NotEnoughAccountKeys),
        (ProgramError::AccountBorrowFailed, HostError::AccountBorrowFailed),
        (ProgramError::MaxSeedLengthExceeded, HostError::MaxSeedLengthExceeded),
        (ProgramError::InvalidSeeds, HostError::InvalidSeeds),
        (ProgramError::BorshIoError, HostError::BorshIoError),
        (ProgramError::AccountNotRentExempt, HostError::AccountNotRentExempt),
        (ProgramError::UnsupportedSysvar, HostError::UnsupportedSysvar),
        (ProgramError::IllegalOwner, HostError::IllegalOwner),
        (
            ProgramError::MaxAccountsDataAllocationsExceeded,
            HostError::MaxAccountsDataAllocationsExceeded,
        ),
        (ProgramError::InvalidRealloc, HostError::InvalidRealloc),
        (
            ProgramError::MaxInstructionTraceLengthExceeded,
            HostError::MaxInstructionTraceLengthExceeded,
        ),
        (
            ProgramError::BuiltinProgramsMustConsumeComputeUnits,
            HostError::BuiltinProgramsMustConsumeComputeUnits,
        ),
        (ProgramError::InvalidAccountOwner, HostError::InvalidAccountOwner),
        (ProgramError::ArithmeticOverflow, HostError::ArithmeticOverflow),
        (ProgramError::Immutable, HostError::Immutable),
        (ProgramError::IncorrectAuthority, HostError::IncorrectAuthority),
    ];
    for (ours, theirs) in pairs {
        let code = u64::from(theirs.clone());
        assert_eq!(ours.code(), code);
        assert_eq!(ProgramError::from_code(code), ours);
        assert_eq!(HostError::from(ours.code()), theirs);
    }
}

#[test]
fn error_codes_have_exact_values() {
    assert_eq!(CUSTOM_ZERO, 1 << 32);
    assert_eq!(ProgramError::Custom(0).code(), 0x1_0000_0000);
    assert_eq!(ProgramError::Custom(7).code(), 7);
    assert_eq!(ProgramError::InvalidArgument.code(), 2 << 32);
    assert_eq!(ProgramError::MissingRequiredSignature.code(), 8 << 32);
    assert_eq!(ProgramError::IncorrectAuthority.code(), 26 << 32);
    assert_eq!(ProgramError::from_code(27 << 32), ProgramError::Custom(0));
    assert_eq!(ProgramError::from_code((27 << 32) + 5), ProgramError::Custom(5));
    assert_eq!(ProgramError::from_code(0), ProgramError::Custom(0));
    assert_eq!(ProgramError::from_code(u64::MAX), ProgramError::Custom(u32::MAX));
}
