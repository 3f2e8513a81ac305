//! Calls from one program into another, as the ledger host takes them.

use crate::pubkey::Pubkey;
use vstd::prelude::*;

verus! {

/// An account that a called program is given, with what it may do with it.
#[derive(Clone, Copy, Debug, PartialEq, Eq)]
pub struct AccountMeta {
    /// Address of the account.
    pub pubkey: Pubkey,
    /// Whether the call carries this account's signature.
    pub is_signer: bool,
    /// Whether the called program may change the account.
    pub is_writable: bool,
}

/// An instruction for a program: the program, its accounts, and its payload.
#[derive(Clone, Debug, PartialEq, Eq)]
pub struct Instruction {
    /// Address of the program to run.
    pub program_id: Pubkey,
    /// The accounts handed to the program, in the order it expects.
    pub accounts: Vec<AccountMeta>,
    /// The payload handed to the program.
    pub data: Vec<u8>,
}

/// An instruction as a mathematical value.
pub struct InstructionView {
    pub program_id: Pubkey,
    pub accounts: Seq<AccountMeta>,
    pub data: Seq<u8>,
}

impl View for Instruction {
    type V = InstructionView;

    open spec fn view(&self) -> InstructionView {
        InstructionView { program_id: self.program_id, accounts: self.accounts@, data: self.data@ }
    }
}

/// A call into another program that the host is to make once, after the
/// instruction that asked for it has succeeded so far.
#[derive(Clone, Debug, PartialEq, Eq)]
pub struct Invocation {
    /// The instruction to run.
    pub instruction: Instruction,
    /// Positions, in the caller's own account list, of the accounts to hand over.
    pub account_indices: Vec<usize>,
}

/// An invocation as a mathematical value.
pub struct InvocationView {
    pub instruction: InstructionView,
    pub account_indices: Seq<usize>,
}

impl View for Invocation {
    type V = InvocationView;

    open spec fn view(&self) -> InvocationView {
        InvocationView {
            instruction: self.instruction@,
            account_indices: self.account_indices@,
        }
    }
}

} // verus!
