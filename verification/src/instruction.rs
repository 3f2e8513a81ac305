//! The instructions that the escrow program takes, and their wire format.
//!
//! A payload starts with one byte that tells the instruction. The only one so far
//! has tag 0 and carries the amount that the depositor asks in return, as a
//! little-endian 64-bit integer; bytes after the amount are not read.

use crate::bytes::{read_u64_le, u64_from_le_bytes};
use crate::error::ProgramError;
use vstd::prelude::*;

verus! {

/// Tag of the instruction that starts an escrow.
pub const INIT_ESCROW_TAG: u8 = 0;

/// Number of bytes that the shortest payload of `InitEscrow` has.
pub const INIT_ESCROW_LEN: usize = 9;

/// An instruction for the escrow program.
#[derive(Clone, Copy, Debug, PartialEq, Eq, Structural)]
pub enum EscrowInstruction {
    /// Starts an escrow: the initializer has put an asset into a temporary
    /// account and asks `amount` of the counterparty's asset in return.
    InitEscrow { amount: u64 },
}

impl EscrowInstruction {
    /// The instruction that the payload `input` encodes, if it encodes one.
    pub open spec fn unpack_spec(input: Seq<u8>) -> Result<EscrowInstruction, ProgramError> {
        if input.len() >= INIT_ESCROW_LEN && input[0] == INIT_ESCROW_TAG {
            Ok(EscrowInstruction::InitEscrow { amount: u64_from_le_bytes(input.subrange(1, 9)) })
        } else {
            Err(ProgramError::InvalidInstructionData)
        }
    }

    /// Decodes a payload. An empty payload, an unknown tag, and a payload too short
    /// for its tag are refused.
    pub fn unpack(input: &[u8]) -> (r: Result<EscrowInstruction, ProgramError>)
        ensures
            r == Self::unpack_spec(input@),
    {
        if input.len() < INIT_ESCROW_LEN {
            return Err(ProgramError::InvalidInstructionData);
        }
        if input[0] != INIT_ESCROW_TAG {
            return Err(ProgramError::InvalidInstructionData);
        }
        Ok(EscrowInstruction::InitEscrow { amount: read_u64_le(input, 1) })
    }
}

} // verus!
