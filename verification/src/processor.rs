//! Processing of the escrow program's instructions.
//!
//! Starting an escrow checks the accounts that came with the instruction, in a
//! fixed order, then writes the record of the deal and asks for one call into the
//! token program: the call that hands the temporary account over to an address
//! that only the escrow program controls. Any refusal leaves every account as it
//! was and asks for no call.
//!
//! The accounts are taken by position:
//!
//! 0. the initializer, who deposits an asset and sets the terms;
//! 1. the temporary token account that holds the deposit, whoever holds it now;
//! 2. the initializer's token account for what is received;
//! 3. the account that stores the escrow record;
//! 4. the account with the ledger's rent parameters;
//! 5. the token program.
//!
//! The checks, in their order, and the error of each:
//!
//! 1. the payload encodes an instruction: `InvalidInstructionData`;
//! 2. all six accounts are there: `NotEnoughAccountKeys`;
//! 3. the initializer has signed: `MissingRequiredSignature`;
//! 4. the receiving account is held by the token program: `IncorrectProgramId`;
//! 5. the rent parameters can be read from their account: `InvalidArgument`;
//! 6. the balance of the escrow account exempts it from rent at its data length,
//!    which it does not where the ledger computes no minimum balance:
//!    `AccountNotRentExempt`;
//! 7. the data of the escrow account has the width of a record:
//!    `InvalidAccountData`;
//! 8. the record is not live: `AccountAlreadyInitialized`;
//! 9. the program has an address that takes custody: `InvalidSeeds`;
//! 10. the call goes to the token program: `IncorrectProgramId`.

use crate::account_info::AccountInfo;
use crate::error::ProgramError;
use crate::instruction::EscrowInstruction;
use crate::invocation::{AccountMeta, Invocation, InvocationView};
use crate::pubkey::{program_address, try_find_program_address, Pubkey};
use crate::rent::Rent;
use crate::state::Escrow;
use crate::token::{set_authority, set_authority_spec, AuthorityType, TOKEN_PROGRAM_ID};
use vstd::prelude::*;

verus! {

/// The seed under which the program derives the address that takes custody,
/// the text `escrow`.
pub const ESCROW_SEED: [u8; 6] = [101, 115, 99, 114, 111, 119];

/// Number of accounts that starting an escrow consumes.
pub const INIT_ESCROW_ACCOUNTS: usize = 6;

/// Position of the initializer.
pub const INITIALIZER: usize = 0;

/// Position of the temporary token account.
pub const TEMP_TOKEN_ACCOUNT: usize = 1;

/// Position of the initializer's token account for what is received.
pub const TOKEN_TO_RECEIVE_ACCOUNT: usize = 2;

/// Position of the account that stores the escrow record.
pub const ESCROW_ACCOUNT: usize = 3;

/// Position of the account with the rent parameters.
pub const RENT_SYSVAR: usize = 4;

/// Position of the token program.
pub const TOKEN_PROGRAM: usize = 5;

/// The escrow program's instruction processor.
pub struct Processor;

impl Processor {
    /// The address that takes custody of deposits for the program `program_id`,
    /// with its bump seed; `None` where the program has no such address.
    pub open spec fn custody_authority(program_id: Pubkey) -> Option<(Pubkey, u8)> {
        program_address(seq![ESCROW_SEED@], program_id)
    }

    /// The record that starting an escrow with these accounts writes.
    pub open spec fn init_escrow_record(accounts: Seq<AccountInfo>, amount: u64) -> Escrow
        recommends
            accounts.len() >= INIT_ESCROW_ACCOUNTS,
    {
        Escrow {
            is_initialized: true,
            initializer_pubkey: accounts[INITIALIZER as int].key,
            temp_token_account_pubkey: accounts[TEMP_TOKEN_ACCOUNT as int].key,
            initializer_token_to_receive_account_pubkey:
                accounts[TOKEN_TO_RECEIVE_ACCOUNT as int].key,
            expected_amount: amount,
        }
    }

    /// What starting an escrow comes to, given the address `authority` that takes
    /// custody: the first refusal in the order of the checks, or else the record
    /// to write and the call to make.
    pub open spec fn init_escrow_spec(
        accounts: Seq<AccountInfo>,
        amount: u64,
        authority: Option<(Pubkey, u8)>,
    ) -> Result<(Escrow, InvocationView), ProgramError> {
        if accounts.len() < INIT_ESCROW_ACCOUNTS {
            Err(ProgramError::NotEnoughAccountKeys)
        } else if !accounts[INITIALIZER as int].is_signer {
            Err(ProgramError::MissingRequiredSignature)
        } else if accounts[TOKEN_TO_RECEIVE_ACCOUNT as int].owner@ != TOKEN_PROGRAM_ID@ {
            Err(ProgramError::IncorrectProgramId)
        } else {
            let escrow_account = accounts[ESCROW_ACCOUNT as int];
            match Rent::from_account_info_spec(accounts[RENT_SYSVAR as int]) {
                Err(e) => Err(e),
                Ok(rent) => if rent.is_exempt_spec(
                    escrow_account.lamports,
                    escrow_account.data.len(),
                ) != Some(true) {
                    Err(ProgramError::AccountNotRentExempt)
                } else {
                    match Escrow::unpack_unchecked_spec(escrow_account.data@) {
                        Err(e) => Err(e),
                        Ok(stored) => if stored.is_initialized {
                            Err(ProgramError::AccountAlreadyInitialized)
                        } else {
                            match authority {
                                None => Err(ProgramError::InvalidSeeds),
                                Some((address, _)) => match set_authority_spec(
                                    accounts[TOKEN_PROGRAM as int].key,
                                    accounts[TEMP_TOKEN_ACCOUNT as int].key,
                                    address,
                                    AuthorityType::AccountOwner,
                                    accounts[INITIALIZER as int].key,
                                    accounts[INITIALIZER as int].key,
                                ) {
                                    Err(e) => Err(e),
                                    Ok(instruction) => Ok(
                                        (
                                            Self::init_escrow_record(accounts, amount),
                                            InvocationView {
                                                instruction,
                                                account_indices: seq![
                                                    TEMP_TOKEN_ACCOUNT,
                                                    INITIALIZER,
                                                    TOKEN_PROGRAM,
                                                ],
                                            },
                                        ),
                                    ),
                                },
                            }
                        },
                    }
                },
            }
        }
    }

    /// What processing an instruction comes to: a payload that cannot be decoded
    /// is refused before any account is looked at; an instruction that starts an
    /// escrow comes to what `init_escrow_spec` says, with the program's own
    /// custody address.
    pub open spec fn process_spec(
        program_id: Pubkey,
        accounts: Seq<AccountInfo>,
        instruction_data: Seq<u8>,
    ) -> Result<(Escrow, InvocationView), ProgramError> {
        match EscrowInstruction::unpack_spec(instruction_data) {
            Err(e) => Err(e),
            Ok(EscrowInstruction::InitEscrow { amount }) => Self::init_escrow_spec(
                accounts,
                amount,
                Self::custody_authority(program_id),
            ),
        }
    }

    /// Whether the accounts `after` and the result `r` are what `expected` asks for,
    /// the accounts having been `before`. On success the record stands in the data
    /// of the escrow account, nothing else has changed, and `r` is the call to
    /// make. On a refusal nothing has changed and `r` is that refusal.
    pub open spec fn carried_out(
        expected: Result<(Escrow, InvocationView), ProgramError>,
        before: Seq<AccountInfo>,
        after: Seq<AccountInfo>,
        r: Result<Invocation, ProgramError>,
    ) -> bool {
        match expected {
            Ok((escrow, invocation)) => {
                &&& r matches Ok(made) && made@ == invocation
                &&& after.len() == before.len()
                &&& forall|i: int|
                    0 <= i < before.len() && i != ESCROW_ACCOUNT ==> after[i] == before[i]
                &&& after[ESCROW_ACCOUNT as int].holds_data_of(
                    before[ESCROW_ACCOUNT as int],
                    escrow.pack_spec(),
                )
            },
            Err(e) => r matches Err(refusal) && refusal == e && after == before,
        }
    }

    /// Processes one instruction for the program `program_id`.
    ///
    /// On success the escrow record has been written, and the returned call into
    /// the token program is to be made once, by the host, within the same
    /// instruction; if that call fails, so does the instruction.
    pub fn process(
        program_id: &Pubkey,
        accounts: &mut [AccountInfo],
        instruction_data: &[u8],
    ) -> (r: Result<Invocation, ProgramError>)
        ensures
            Self::carried_out(
                Self::process_spec(*program_id, old(accounts)@, instruction_data@),
                old(accounts)@,
                final(accounts)@,
                r,
            ),
    {
        match EscrowInstruction::unpack(instruction_data) {
            Err(e) => Err(e),
            Ok(EscrowInstruction::InitEscrow { amount }) => Self::process_init_escrow(
                accounts,
                amount,
                program_id,
            ),
        }
    }

    /// Starts an escrow for the program `program_id`, which asks `amount` in return
    /// for the deposit.
    pub fn process_init_escrow(
        accounts: &mut [AccountInfo],
        amount: u64,
        program_id: &Pubkey,
    ) -> (r: Result<Invocation, ProgramError>)
        ensures
            Self::carried_out(
                Self::init_escrow_spec(
                    old(accounts)@,
                    amount,
                    Self::custody_authority(*program_id),
                ),
                old(accounts)@,
                final(accounts)@,
                r,
            ),
    {
        let authority = try_find_program_address(ESCROW_SEED.as_slice(), program_id);
        Self::init_escrow(accounts, amount, authority)
    }

    /// Starts an escrow whose deposit goes into the custody of `authority`, the
    /// address derived for the program, if there is one.
    pub fn init_escrow(
        accounts: &mut [AccountInfo],
        amount: u64,
        authority: Option<(Pubkey, u8)>,
    ) -> (r: Result<Invocation, ProgramError>)
        ensures
            Self::carried_out(
                Self::init_escrow_spec(old(accounts)@, amount, authority),
                old(accounts)@,
                final(accounts)@,
                r,
            ),
    {
        if accounts.len() < INIT_ESCROW_ACCOUNTS {
            return Err(ProgramError::NotEnoughAccountKeys);
        }
        if !accounts[INITIALIZER].is_signer {
            return Err(ProgramError::MissingRequiredSignature);
        }
        if accounts[TOKEN_TO_RECEIVE_ACCOUNT].owner != crate::token::id() {
            return Err(ProgramError::IncorrectProgramId);
        }
        let rent = match Rent::from_account_info(&accounts[RENT_SYSVAR]) {
            Ok(rent) => rent,
            Err(e) => return Err(e),
        };
        let exempt = rent.is_exempt(
            accounts[ESCROW_ACCOUNT].lamports,
            accounts[ESCROW_ACCOUNT].data.len(),
        );
        match exempt {
            Some(true) => {},
            _ => return Err(ProgramError::AccountNotRentExempt),
        }
        let stored = Escrow::unpack_unchecked(accounts[ESCROW_ACCOUNT].data.as_slice());
        let mut escrow_info = match stored {
            Ok(stored) => stored,
            Err(e) => return Err(e),
        };
        if escrow_info.is_initialized() {
            return Err(ProgramError::AccountAlreadyInitialized);
        }
        escrow_info.is_initialized = true;
        escrow_info.initializer_pubkey = accounts[INITIALIZER].key;
        escrow_info.temp_token_account_pubkey = accounts[TEMP_TOKEN_ACCOUNT].key;
        escrow_info.initializer_token_to_receive_account_pubkey =
            accounts[TOKEN_TO_RECEIVE_ACCOUNT].key;
        escrow_info.expected_amount = amount;

        let pda = match authority {
            Some((address, _bump_seed)) => address,
            None => return Err(ProgramError::InvalidSeeds),
        };
        let owner_change_instruction = match set_authority(
            &accounts[TOKEN_PROGRAM].key,
            &accounts[TEMP_TOKEN_ACCOUNT].key,
            &pda,
            AuthorityType::AccountOwner,
            &accounts[INITIALIZER].key,
            &accounts[INITIALIZER].key,
        ) {
            Ok(instruction) => instruction,
            Err(e) => return Err(e),
        };
        match Escrow::pack(escrow_info, accounts[ESCROW_ACCOUNT].data.as_mut_slice()) {
            Ok(_) => {},
            Err(e) => return Err(e),
        }
        Ok(
            Invocation {
                instruction: owner_change_instruction,
                account_indices: vec![TEMP_TOKEN_ACCOUNT, INITIALIZER, TOKEN_PROGRAM],
            },
        )
    }

    /// A refusal leaves every account as it was and asks for no call.
    pub proof fn lemma_refusal_changes_nothing(
        expected: Result<(Escrow, InvocationView), ProgramError>,
        before: Seq<AccountInfo>,
        after: Seq<AccountInfo>,
        r: Result<Invocation, ProgramError>,
    )
        requires
            expected is Err,
            Self::carried_out(expected, before, after, r),
        ensures
            after == before,
            r is Err,
            r->Err_0 == expected->Err_0,
    {
    }

    /// A payload with an unknown tag, or too short for the amount, is refused as
    /// invalid instruction data, whatever the accounts are.
    pub proof fn lemma_malformed_payload_is_refused(
        program_id: Pubkey,
        accounts: Seq<AccountInfo>,
        instruction_data: Seq<u8>,
    )
        requires
            instruction_data.len() < 9 || instruction_data[0] != 0,
        ensures
            Self::process_spec(program_id, accounts, instruction_data) matches Err(e) && e
                == ProgramError::InvalidInstructionData,
    {
    }

    /// Starting an escrow whose initializer has not signed is refused for the
    /// missing signature, whatever the other accounts are.
    pub proof fn lemma_unsigned_initializer_is_refused(
        program_id: Pubkey,
        accounts: Seq<AccountInfo>,
        instruction_data: Seq<u8>,
    )
        requires
            EscrowInstruction::unpack_spec(instruction_data) is Ok,
            accounts.len() >= INIT_ESCROW_ACCOUNTS,
            !accounts[INITIALIZER as int].is_signer,
        ensures
            Self::process_spec(program_id, accounts, instruction_data) matches Err(e) && e
                == ProgramError::MissingRequiredSignature,
    {
    }

    /// Starting an escrow whose receiving account is not held by the token
    /// program is refused for the wrong program, whatever the accounts after the
    /// initializer are, once the initializer has signed.
    pub proof fn lemma_foreign_receiving_account_is_refused(
        program_id: Pubkey,
        accounts: Seq<AccountInfo>,
        instruction_data: Seq<u8>,
    )
        requires
            EscrowInstruction::unpack_spec(instruction_data) is Ok,
            accounts.len() >= INIT_ESCROW_ACCOUNTS,
            accounts[INITIALIZER as int].is_signer,
            accounts[TOKEN_TO_RECEIVE_ACCOUNT as int].owner@ != TOKEN_PROGRAM_ID@,
        ensures
            Self::process_spec(program_id, accounts, instruction_data) matches Err(e) && e
                == ProgramError::IncorrectProgramId,
    {
    }

    /// Whether the accounts pass the checks that come before the rent check.
    pub open spec fn reaches_rent_check(accounts: Seq<AccountInfo>) -> bool {
        &&& accounts.len() >= INIT_ESCROW_ACCOUNTS
        &&& accounts[INITIALIZER as int].is_signer
        &&& accounts[TOKEN_TO_RECEIVE_ACCOUNT as int].owner@ == TOKEN_PROGRAM_ID@
        &&& Rent::from_account_info_spec(accounts[RENT_SYSVAR as int]) is Ok
    }

    /// Whether the balance of the escrow account exempts it from rent at its data
    /// length, under the rent parameters that came with the instruction.
    pub open spec fn escrow_account_is_exempt(accounts: Seq<AccountInfo>) -> bool
        recommends
            Self::reaches_rent_check(accounts),
    {
        Rent::from_account_info_spec(accounts[RENT_SYSVAR as int])->Ok_0.is_exempt_spec(
            accounts[ESCROW_ACCOUNT as int].lamports,
            accounts[ESCROW_ACCOUNT as int].data.len(),
        ) == Some(true)
    }

    /// An escrow account whose balance does not exempt it from rent is refused for
    /// that, whatever its data holds: the record is not looked at before.
    pub proof fn lemma_rent_is_checked_before_the_record(
        program_id: Pubkey,
        accounts: Seq<AccountInfo>,
        instruction_data: Seq<u8>,
    )
        requires
            EscrowInstruction::unpack_spec(instruction_data) is Ok,
            Self::reaches_rent_check(accounts),
            !Self::escrow_account_is_exempt(accounts),
        ensures
            Self::process_spec(program_id, accounts, instruction_data) matches Err(e) && e
                == ProgramError::AccountNotRentExempt,
    {
    }

    /// An escrow account that holds a live record is refused as already
    /// initialized, whatever the amount, the custody address and the token
    /// program account are.
    pub proof fn lemma_live_record_is_refused(
        program_id: Pubkey,
        accounts: Seq<AccountInfo>,
        instruction_data: Seq<u8>,
    )
        requires
            EscrowInstruction::unpack_spec(instruction_data) is Ok,
            Self::reaches_rent_check(accounts),
            Self::escrow_account_is_exempt(accounts),
            Escrow::unpack_unchecked_spec(accounts[ESCROW_ACCOUNT as int].data@) matches Ok(stored)
                && stored.is_initialized,
        ensures
            Self::process_spec(program_id, accounts, instruction_data) matches Err(e) && e
                == ProgramError::AccountAlreadyInitialized,
    {
    }

    /// With a signed initializer, a receiving account held by the token program,
    /// a rent-exempt escrow account of a record's width that is not in use, a
    /// custody address, and the token program in its place, starting an escrow
    /// succeeds: the record is live and holds the addresses of the first three
    /// accounts and the amount, and the one call asked for is the token program's
    /// instruction that makes the custody address the owner of the temporary
    /// account, on the initializer's signature.
    pub proof fn lemma_init_escrow_succeeds(
        accounts: Seq<AccountInfo>,
        amount: u64,
        authority: Pubkey,
        bump_seed: u8,
    )
        requires
            Self::reaches_rent_check(accounts),
            Self::escrow_account_is_exempt(accounts),
            accounts[ESCROW_ACCOUNT as int].data@.len() == Escrow::LEN,
            accounts[ESCROW_ACCOUNT as int].data@[0] == 0,
            accounts[TOKEN_PROGRAM as int].key@ == TOKEN_PROGRAM_ID@,
        ensures
            Self::init_escrow_spec(accounts, amount, Some((authority, bump_seed))) is Ok,
            ({
                let (escrow, invocation) = Self::init_escrow_spec(
                    accounts,
                    amount,
                    Some((authority, bump_seed)),
                )->Ok_0;
                &&& escrow.is_initialized
                &&& escrow.initializer_pubkey == accounts[INITIALIZER as int].key
                &&& escrow.temp_token_account_pubkey == accounts[TEMP_TOKEN_ACCOUNT as int].key
                &&& escrow.initializer_token_to_receive_account_pubkey
                    == accounts[TOKEN_TO_RECEIVE_ACCOUNT as int].key
                &&& escrow.expected_amount == amount
                &&& invocation.instruction.program_id == accounts[TOKEN_PROGRAM as int].key
                &&& invocation.instruction.accounts == seq![
                    AccountMeta {
                        pubkey: accounts[TEMP_TOKEN_ACCOUNT as int].key,
                        is_signer: false,
                        is_writable: true,
                    },
                    AccountMeta {
                        pubkey: accounts[INITIALIZER as int].key,
                        is_signer: false,
                        is_writable: false,
                    },
                    AccountMeta {
                        pubkey: accounts[INITIALIZER as int].key,
                        is_signer: true,
                        is_writable: false,
                    },
                ]
                &&& invocation.instruction.data == seq![6u8, 2u8, 1u8] + authority@
                &&& invocation.account_indices == seq![1usize, 0usize, 5usize]
            }),
    {
    }

    /// Once an escrow has been started, its account decodes to the live record of
    /// the deal: the three addresses of the first three accounts and the amount.
    pub proof fn lemma_started_escrow_is_stored(
        accounts: Seq<AccountInfo>,
        amount: u64,
        authority: Option<(Pubkey, u8)>,
        after: Seq<AccountInfo>,
        r: Result<Invocation, ProgramError>,
    )
        requires
            Self::init_escrow_spec(accounts, amount, authority) is Ok,
            Self::carried_out(
                Self::init_escrow_spec(accounts, amount, authority),
                accounts,
                after,
                r,
            ),
        ensures
            Escrow::unpack_spec(after[ESCROW_ACCOUNT as int].data@) matches Ok(stored) && stored
                == Self::init_escrow_record(accounts, amount),
    {
        Escrow::lemma_pack_unpack(Self::init_escrow_record(accounts, amount));
    }

    /// An escrow is started at most once in a slot: once it has been started,
    /// starting another one with the accounts as they have become is refused as
    /// already initialized, whatever the amount and the custody address.
    pub proof fn lemma_started_escrow_is_not_started_again(
        accounts: Seq<AccountInfo>,
        amount: u64,
        authority: Option<(Pubkey, u8)>,
        after: Seq<AccountInfo>,
        r: Result<Invocation, ProgramError>,
        next_amount: u64,
        next_authority: Option<(Pubkey, u8)>,
    )
        requires
            Self::init_escrow_spec(accounts, amount, authority) is Ok,
            Self::carried_out(
                Self::init_escrow_spec(accounts, amount, authority),
                accounts,
                after,
                r,
            ),
        ensures
            Self::init_escrow_spec(after, next_amount, next_authority) matches Err(e) && e
                == ProgramError::AccountAlreadyInitialized,
    {
        let record = Self::init_escrow_record(accounts, amount);
        Escrow::lemma_pack_unpack_unchecked(record);
        Escrow::lemma_pack_len(record);
    }
}

} // verus!
