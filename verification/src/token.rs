//! The token program's side of the escrow: its address, and the instruction that
//! changes who has authority over a token account.

use crate::error::ProgramError;
use crate::invocation::{AccountMeta, Instruction, InstructionView};
use crate::pubkey::Pubkey;
use spl_token::instruction::AuthorityType as TokenAuthorityType;
use vstd::prelude::*;

verus! {

/// Address of the token program, `TokenkegQfeZyiNwAJbNbGKPFXCWuBvf9Ss623VQ5DA`.
pub const TOKEN_PROGRAM_ID: [u8; 32] = [
    6, 221, 246, 225, 215, 101, 161, 147, 217, 203, 225, 70, 206, 235, 121, 172, 28, 180, 133,
    237, 95, 91, 55, 145, 58, 140, 245, 133, 126, 255, 0, 169,
];

/// Tag of the token program's instruction that sets an authority.
pub const SET_AUTHORITY_TAG: u8 = 6;

/// The kinds of authority that the token program keeps for a mint or an account.
#[derive(Clone, Copy, Debug, PartialEq, Eq, Structural)]
pub enum AuthorityType {
    /// May mint new tokens.
    MintTokens,
    /// May freeze the accounts of a mint.
    FreezeAccount,
    /// Owns a token account.
    AccountOwner,
    /// May close a token account.
    CloseAccount,
}

impl AuthorityType {
    /// The byte that stands for the kind in an instruction's payload.
    pub open spec fn tag(self) -> u8 {
        match self {
            AuthorityType::MintTokens => 0,
            AuthorityType::FreezeAccount => 1,
            AuthorityType::AccountOwner => 2,
            AuthorityType::CloseAccount => 3,
        }
    }
}

/// The instruction that hands the authority `authority_type` over `owned` to
/// `new_authority`, asked for by the single signer `signer` on behalf of the
/// current authority `owner`.
///
/// Its accounts are the account concerned, writable; the current authority; and
/// the signer. Its payload is the tag, the kind of authority, a byte 1 that says
/// a new authority follows, and that authority's 32 bytes. No instruction is made
/// for a program other than the token program.
pub open spec fn set_authority_spec(
    token_program_id: Pubkey,
    owned: Pubkey,
    new_authority: Pubkey,
    authority_type: AuthorityType,
    owner: Pubkey,
    signer: Pubkey,
) -> Result<InstructionView, ProgramError> {
    if token_program_id@ != TOKEN_PROGRAM_ID@ {
        Err(ProgramError::IncorrectProgramId)
    } else {
        Ok(
            InstructionView {
                program_id: token_program_id,
                accounts: seq![
                    AccountMeta { pubkey: owned, is_signer: false, is_writable: true },
                    AccountMeta { pubkey: owner, is_signer: false, is_writable: false },
                    AccountMeta { pubkey: signer, is_signer: true, is_writable: false },
                ],
                data: seq![SET_AUTHORITY_TAG, authority_type.tag(), 1u8] + new_authority@,
            },
        )
    }
}

/// Returns the address of the token program.
///
/// Calls `spl_token::id`, which returns the constant that `spl_token` declares from
/// the text `TokenkegQfeZyiNwAJbNbGKPFXCWuBvf9Ss623VQ5DA`; the contract gives its
/// 32 bytes.
#[verifier::external_body]
pub(crate) fn id() -> (r: Pubkey)
    ensures
        r@ == TOKEN_PROGRAM_ID@,
{
    Pubkey(spl_token::id().to_bytes())
}

/// Builds the token program's instruction that sets an authority.
pub fn set_authority(
    token_program_id: &Pubkey,
    owned: &Pubkey,
    new_authority: &Pubkey,
    authority_type: AuthorityType,
    owner: &Pubkey,
    signer: &Pubkey,
) -> (r: Result<Instruction, ProgramError>)
    ensures
        r is Ok <==> set_authority_spec(
            *token_program_id,
            *owned,
            *new_authority,
            authority_type,
            *owner,
            *signer,
        ) is Ok,
        r matches Ok(instruction) ==> instruction@ == set_authority_spec(
            *token_program_id,
            *owned,
            *new_authority,
            authority_type,
            *owner,
            *signer,
        )->Ok_0,
        r matches Err(e) ==> e == ProgramError::IncorrectProgramId,
{
    let made = token_set_authority(
        token_program_id,
        owned,
        new_authority,
        authority_type,
        owner,
        signer,
    );
    match made {
        Ok(instruction) => Ok(instruction),
        Err(code) => Err(ProgramError::from_code(code)),
    }
}

/// Builds the token program's instruction that sets an authority.
///
/// Calls `spl_token::instruction::set_authority` with `new_authority` as the new
/// authority and `signer` as the only signer, and copies the instruction it makes
/// field by field. That function fails with `IncorrectProgramId`, handed on here
/// as the host's code for it, unless `token_program_id` is the token program's
/// address; otherwise it lists the account, the current authority and the signer,
/// and packs the payload as `set_authority_spec` says.
#[verifier::external_body]
fn token_set_authority(
    token_program_id: &Pubkey,
    owned: &Pubkey,
    new_authority: &Pubkey,
    authority_type: AuthorityType,
    owner: &Pubkey,
    signer: &Pubkey,
) -> (r: Result<Instruction, u64>)
    ensures
        r is Ok <==> set_authority_spec(
            *token_program_id,
            *owned,
            *new_authority,
            authority_type,
            *owner,
            *signer,
        ) is Ok,
        r matches Ok(instruction) ==> instruction@ == set_authority_spec(
            *token_program_id,
            *owned,
            *new_authority,
            authority_type,
            *owner,
            *signer,
        )->Ok_0,
        r matches Err(code) ==> code == ProgramError::IncorrectProgramId.code_spec(),
{
    let kind = match authority_type {
        AuthorityType::MintTokens => TokenAuthorityType::MintTokens,
        AuthorityType::FreezeAccount => TokenAuthorityType::FreezeAccount,
        AuthorityType::AccountOwner => TokenAuthorityType::AccountOwner,
        AuthorityType::CloseAccount => TokenAuthorityType::CloseAccount,
    };
    spl_token::instruction::set_authority(
        &token_program_id.0.into(), &owned.0.into(), Some(&new_authority.0.into()), kind, &owner.0.into(), &[&signer.0.into()],
    )
        .map(|made| Instruction {
            program_id: Pubkey(made.program_id.to_bytes()),
            accounts: made.accounts.iter().map(|m| AccountMeta { pubkey: Pubkey(m.pubkey.to_bytes()), is_signer: m.is_signer, is_writable: m.is_writable }).collect(),
            data: made.data,
        })
        .map_err(u64::from)
}

} // verus!
