//! Validation and state-transition core of a two-party escrow program.
//!
//! The crate checks an initialization instruction and its accounts, writes the
//! escrow record that describes the deal, and hands back the one cross-program
//! call that moves custody of the deposit to an address only the program controls.

pub mod account_info;
pub mod bytes;
pub mod error;
pub mod instruction;
pub mod invocation;
pub mod processor;
pub mod pubkey;
pub mod rent;
pub mod state;
pub mod token;
