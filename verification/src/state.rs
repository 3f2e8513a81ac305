//! The escrow record and its fixed-width binary layout.
//!
//! A record takes 105 bytes: one byte that says whether the slot holds a live
//! escrow, the three addresses of the deal, 32 bytes each, and the amount asked in
//! return as a little-endian 64-bit integer.

use crate::bytes::{
    lemma_u64_le_round_trip, read_u64_le, u64_from_le_bytes, u64_to_le_bytes, write_u64_le,
};
use crate::error::ProgramError;
use crate::pubkey::Pubkey;
use vstd::prelude::*;

verus! {

/// The terms of one escrow, as stored in its account.
#[derive(Clone, Copy, Debug, PartialEq, Eq)]
pub struct Escrow {
    /// Whether the slot holds a live escrow.
    pub is_initialized: bool,
    /// The party that deposits an asset and sets the terms.
    pub initializer_pubkey: Pubkey,
    /// The account that holds the deposit until the trade.
    pub temp_token_account_pubkey: Pubkey,
    /// The account in which the depositor expects the counterparty's asset.
    pub initializer_token_to_receive_account_pubkey: Pubkey,
    /// The amount that the depositor asks in return.
    pub expected_amount: u64,
}

impl Escrow {
    /// Number of bytes that a record takes.
    pub const LEN: usize = 105;

    /// The 105 bytes that store the record.
    pub open spec fn pack_spec(self) -> Seq<u8> {
        seq![if self.is_initialized { 1u8 } else { 0u8 }] + self.initializer_pubkey@
            + self.temp_token_account_pubkey@ + self.initializer_token_to_receive_account_pubkey@
            + u64_to_le_bytes(self.expected_amount)
    }

    /// The record that the first 105 bytes of `src` store. Every byte pattern is a
    /// record: the slot is live unless its first byte is zero.
    pub open spec fn unpack_from_slice_spec(src: Seq<u8>) -> Escrow
        recommends
            src.len() >= Self::LEN,
    {
        Escrow {
            is_initialized: src[0] != 0,
            initializer_pubkey: Pubkey::from_seq(src.subrange(1, 33)),
            temp_token_account_pubkey: Pubkey::from_seq(src.subrange(33, 65)),
            initializer_token_to_receive_account_pubkey: Pubkey::from_seq(src.subrange(65, 97)),
            expected_amount: u64_from_le_bytes(src.subrange(97, 105)),
        }
    }

    /// What decoding `input` gives when the caller checks liveness itself: the
    /// record, unless the buffer does not have the width of a record.
    pub open spec fn unpack_unchecked_spec(input: Seq<u8>) -> Result<Escrow, ProgramError> {
        if input.len() != Self::LEN {
            Err(ProgramError::InvalidAccountData)
        } else {
            Ok(Self::unpack_from_slice_spec(input))
        }
    }

    /// What decoding `input` gives: the live record that it stores.
    pub open spec fn unpack_spec(input: Seq<u8>) -> Result<Escrow, ProgramError> {
        match Self::unpack_unchecked_spec(input) {
            Ok(escrow) => if escrow.is_initialized {
                Ok(escrow)
            } else {
                Err(ProgramError::UninitializedAccount)
            },
            Err(e) => Err(e),
        }
    }

    /// Tells whether the record is that of a live escrow.
    pub fn is_initialized(&self) -> (r: bool)
        ensures
            r == self.is_initialized,
    {
        self.is_initialized
    }

    /// Decodes the live record stored in `input`.
    pub fn unpack(input: &[u8]) -> (r: Result<Escrow, ProgramError>)
        ensures
            r == Self::unpack_spec(input@),
    {
        match Self::unpack_unchecked(input) {
            Ok(escrow) => if escrow.is_initialized() {
                Ok(escrow)
            } else {
                Err(ProgramError::UninitializedAccount)
            },
            Err(e) => Err(e),
        }
    }

    /// Decodes the record stored in `input`, live or not.
    pub fn unpack_unchecked(input: &[u8]) -> (r: Result<Escrow, ProgramError>)
        ensures
            r == Self::unpack_unchecked_spec(input@),
    {
        if input.len() != Self::LEN {
            return Err(ProgramError::InvalidAccountData);
        }
        Ok(
            Escrow {
                is_initialized: input[0] != 0,
                initializer_pubkey: Pubkey::from_slice(input, 1),
                temp_token_account_pubkey: Pubkey::from_slice(input, 33),
                initializer_token_to_receive_account_pubkey: Pubkey::from_slice(input, 65),
                expected_amount: read_u64_le(input, 97),
            },
        )
    }

    /// Stores the record in `dst`, which must have the width of a record; a buffer
    /// of another width is refused and left as it is.
    pub fn pack(src: Escrow, dst: &mut [u8]) -> (r: Result<(), ProgramError>)
        ensures
            r is Ok <==> old(dst)@.len() == Self::LEN,
            r is Ok ==> final(dst)@ == src.pack_spec(),
            r matches Err(e) ==> e == ProgramError::InvalidAccountData && final(dst)@ == old(dst)@,
    {
        if dst.len() != Self::LEN {
            return Err(ProgramError::InvalidAccountData);
        }
        dst[0] = if src.is_initialized {
            1
        } else {
            0
        };
        src.initializer_pubkey.write_to(dst, 1);
        src.temp_token_account_pubkey.write_to(dst, 33);
        src.initializer_token_to_receive_account_pubkey.write_to(dst, 65);
        write_u64_le(dst, 97, src.expected_amount);
        assert(dst@ =~= src.pack_spec());
        Ok(())
    }

    /// A record takes exactly 105 bytes, whatever it holds.
    pub proof fn lemma_pack_len(escrow: Escrow)
        ensures
            escrow.pack_spec().len() == Self::LEN,
    {
    }

    /// Storing a record and decoding the bytes gives the record back, live or not.
    pub proof fn lemma_pack_unpack_unchecked(escrow: Escrow)
        ensures
            Self::unpack_unchecked_spec(escrow.pack_spec()) matches Ok(back) && back == escrow,
    {
        let packed = escrow.pack_spec();
        let back = Self::unpack_from_slice_spec(packed);
        Pubkey::lemma_from_seq(escrow.initializer_pubkey@);
        Pubkey::lemma_from_seq(escrow.temp_token_account_pubkey@);
        Pubkey::lemma_from_seq(escrow.initializer_token_to_receive_account_pubkey@);
        Pubkey::lemma_view_injective(back.initializer_pubkey, escrow.initializer_pubkey);
        Pubkey::lemma_view_injective(
            back.temp_token_account_pubkey,
            escrow.temp_token_account_pubkey,
        );
        Pubkey::lemma_view_injective(
            back.initializer_token_to_receive_account_pubkey,
            escrow.initializer_token_to_receive_account_pubkey,
        );
        lemma_u64_le_round_trip(escrow.expected_amount);
    }

    /// Storing a live record and decoding the bytes gives the record back; the
    /// bytes of a record that is not live decode to no live record.
    pub proof fn lemma_pack_unpack(escrow: Escrow)
        ensures
            escrow.is_initialized ==> (Self::unpack_spec(escrow.pack_spec()) matches Ok(back)
                && back == escrow),
            !escrow.is_initialized ==> (Self::unpack_spec(escrow.pack_spec()) matches Err(e) && e
                == ProgramError::UninitializedAccount),
    {
        Self::lemma_pack_unpack_unchecked(escrow);
    }

    /// A slot whose first byte is zero decodes to a record that is not live,
    /// whatever its other bytes hold.
    pub proof fn lemma_zero_flag_is_uninitialized(input: Seq<u8>)
        requires
            input.len() == Self::LEN,
            input[0] == 0,
        ensures
            Self::unpack_unchecked_spec(input) matches Ok(stored) && !stored.is_initialized,
            Self::unpack_spec(input) matches Err(e) && e == ProgramError::UninitializedAccount,
    {
    }
}

} // verus!
