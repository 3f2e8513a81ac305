//! What the ledger host tells an instruction about each account it was given.

use crate::pubkey::Pubkey;
use vstd::prelude::*;

verus! {

/// One account as an instruction sees it: its address, its flags for this
/// instruction, its balance, its data, and the program that holds it.
#[derive(Clone, Debug, PartialEq, Eq)]
pub struct AccountInfo {
    /// Address of the account.
    pub key: Pubkey,
    /// Whether the transaction was signed with this account's key.
    pub is_signer: bool,
    /// Whether the instruction may change the account.
    pub is_writable: bool,
    /// Balance of the account, in lamports.
    pub lamports: u64,
    /// The bytes stored in the account.
    pub data: Vec<u8>,
    /// Address of the program that holds the account.
    pub owner: Pubkey,
    /// Whether the account's data is a loaded program.
    pub executable: bool,
}

impl AccountInfo {
    /// Whether `self` is `before` with `data` for its data and everything else kept.
    pub open spec fn holds_data_of(self, before: AccountInfo, data: Seq<u8>) -> bool {
        &&& self.key == before.key
        &&& self.is_signer == before.is_signer
        &&& self.is_writable == before.is_writable
        &&& self.lamports == before.lamports
        &&& self.data@ == data
        &&& self.owner == before.owner
        &&& self.executable == before.executable
    }
}

} // verus!
