//! Account addresses, and the derivation of addresses that only a program controls.

use solana_program::pubkey::Pubkey as Address;
use vstd::prelude::*;

verus! {

/// The address of an account or of a program.
#[derive(Clone, Copy, Debug, Eq)]
pub struct Pubkey(pub [u8; 32]);

impl View for Pubkey {
    type V = Seq<u8>;

    open spec fn view(&self) -> Seq<u8> {
        self.0@
    }
}

impl PartialEq for Pubkey {
    fn eq(&self, other: &Pubkey) -> (r: bool) {
        let mut i: usize = 0;
        while i < 32
            invariant
                i <= 32,
                forall|j: int| 0 <= j < i ==> self.0[j] == other.0[j],
            decreases 32 - i,
        {
            if self.0[i] != other.0[i] {
                return false;
            }
            i += 1;
        }
        assert(self.0@ =~= other.0@);
        true
    }
}

impl vstd::std_specs::cmp::PartialEqSpecImpl for Pubkey {
    open spec fn obeys_eq_spec() -> bool {
        true
    }

    open spec fn eq_spec(&self, other: &Pubkey) -> bool {
        self@ == other@
    }
}

impl Pubkey {
    /// Makes an address of its 32 bytes.
    pub fn new_from_array(bytes: [u8; 32]) -> (r: Pubkey)
        ensures
            r.0 == bytes,
            r@ == bytes@,
    {
        Pubkey(bytes)
    }

    /// Returns the 32 bytes of the address.
    pub fn to_bytes(&self) -> (r: [u8; 32])
        ensures
            r == self.0,
            r@ == self@,
    {
        self.0
    }

    /// The address made of the first 32 bytes of `s`.
    pub open spec fn from_seq(s: Seq<u8>) -> Pubkey
        recommends
            s.len() >= 32,
    {
        Pubkey(
            [
                s[0], s[1], s[2], s[3], s[4], s[5], s[6], s[7],
                s[8], s[9], s[10], s[11], s[12], s[13], s[14], s[15],
                s[16], s[17], s[18], s[19], s[20], s[21], s[22], s[23],
                s[24], s[25], s[26], s[27], s[28], s[29], s[30], s[31],
            ],
        )
    }

    /// Reads an address from the 32 bytes of `src` from `offset` on.
    pub(crate) fn from_slice(src: &[u8], offset: usize) -> (r: Pubkey)
        requires
            offset + 32 <= src@.len(),
        ensures
            r == Self::from_seq(src@.subrange(offset as int, offset + 32)),
            r@ == src@.subrange(offset as int, offset + 32),
    {
        let len: usize = src.len();
        let mut bytes: [u8; 32] = [0u8; 32];
        let mut i: usize = 0;
        while i < 32
            invariant
                i <= 32,
                offset + 32 <= len == src@.len(),
                forall|j: int| 0 <= j < i ==> bytes[j] == src@[offset + j],
            decreases 32 - i,
        {
            bytes[i] = src[offset + i];
            i += 1;
        }
        let ghost part = src@.subrange(offset as int, offset + 32);
        assert(bytes@ =~= part);
        assert(bytes =~= Self::from_seq(part).0);
        Pubkey(bytes)
    }

    /// Writes the address to the 32 bytes of `dst` from `offset` on.
    pub(crate) fn write_to(&self, dst: &mut [u8], offset: usize)
        requires
            offset + 32 <= old(dst)@.len(),
        ensures
            final(dst)@.len() == old(dst)@.len(),
            final(dst)@.subrange(offset as int, offset + 32) == self@,
            forall|i: int|
                0 <= i < old(dst)@.len() && !(offset <= i < offset + 32) ==> final(dst)@[i] == old(
                    dst,
                )@[i],
    {
        let len: usize = dst.len();
        let mut i: usize = 0;
        while i < 32
            invariant
                i <= 32,
                dst@.len() == old(dst)@.len(),
                offset + 32 <= len == dst@.len(),
                forall|j: int| 0 <= j < i ==> dst@[offset + j] == self.0[j],
                forall|j: int|
                    0 <= j < dst@.len() && !(offset <= j < offset + 32) ==> dst@[j] == old(dst)@[j],
            decreases 32 - i,
        {
            dst[offset + i] = self.0[i];
            i += 1;
        }
        assert(dst@.subrange(offset as int, offset + 32) =~= self@);
    }

    /// The address made of a sequence of 32 bytes has those bytes.
    pub proof fn lemma_from_seq(s: Seq<u8>)
        requires
            s.len() == 32,
        ensures
            Self::from_seq(s)@ == s,
    {
        assert(Self::from_seq(s)@ =~= s);
    }

    /// An address is its bytes: two addresses with the same bytes are one address.
    pub proof fn lemma_view_injective(a: Pubkey, b: Pubkey)
        ensures
            a@.len() == 32,
            (a@ == b@) <==> (a == b),
    {
        if a@ == b@ {
            assert(a.0 =~= b.0);
        }
    }
}

/// The address that the program `program_id` controls under the given seeds, with
/// the bump seed that completes the derivation; `None` where the seeds admit no
/// such address.
pub uninterp spec fn program_address(seeds: Seq<Seq<u8>>, program_id: Pubkey) -> Option<
    (Pubkey, u8),
>;

/// Derives the address that `program_id` controls under the single seed `seed`.
///
/// Calls `Pubkey::try_find_program_address` of `solana_program` with the one-element
/// seed list `[seed]`, and hands its answer on. The contract only gives that answer
/// its name: the derivation hashes the seeds, a bump seed and the program's address
/// and tries bump seeds from 255 down until the hash is no point of the curve,
/// which is not restated here. The answer depends on the two arguments alone.
#[verifier::external_body]
pub(crate) fn try_find_program_address(seed: &[u8], program_id: &Pubkey) -> (r: Option<
    (Pubkey, u8),
>)
    ensures
        r == program_address(seq![seed@], *program_id),
{
    Address::try_find_program_address(&[seed], &Address::from(program_id.0)).map(
        |found| (Pubkey(found.0.to_bytes()), found.1),
    )
}

} // verus!
