//! Little-endian unsigned 64-bit integers in byte buffers.

use vstd::prelude::*;

verus! {

/// The integer whose little-endian encoding is the first 8 bytes of `s`.
pub open spec fn u64_from_le_bytes(s: Seq<u8>) -> u64
    recommends
        s.len() >= 8,
{
    (s[0] as int + s[1] as int * 0x100 + s[2] as int * 0x1_0000 + s[3] as int * 0x100_0000
        + s[4] as int * 0x1_0000_0000 + s[5] as int * 0x100_0000_0000 + s[6] as int
        * 0x1_0000_0000_0000 + s[7] as int * 0x100_0000_0000_0000) as u64
}

/// The 8 bytes that encode `x`, least significant first.
pub open spec fn u64_to_le_bytes(x: u64) -> Seq<u8> {
    seq![
        (x % 0x100) as u8,
        (x / 0x100 % 0x100) as u8,
        (x / 0x1_0000 % 0x100) as u8,
        (x / 0x100_0000 % 0x100) as u8,
        (x / 0x1_0000_0000 % 0x100) as u8,
        (x / 0x100_0000_0000 % 0x100) as u8,
        (x / 0x1_0000_0000_0000 % 0x100) as u8,
        (x / 0x100_0000_0000_0000 % 0x100) as u8,
    ]
}

/// Decoding what was encoded gives the integer back.
pub proof fn lemma_u64_le_round_trip(x: u64)
    ensures
        u64_to_le_bytes(x).len() == 8,
        u64_from_le_bytes(u64_to_le_bytes(x)) == x,
{
    assert(x == (x % 0x100) + (x / 0x100 % 0x100) * 0x100 + (x / 0x1_0000 % 0x100) * 0x1_0000 + (x
        / 0x100_0000 % 0x100) * 0x100_0000 + (x / 0x1_0000_0000 % 0x100) * 0x1_0000_0000 + (x
        / 0x100_0000_0000 % 0x100) * 0x100_0000_0000 + (x / 0x1_0000_0000_0000 % 0x100)
        * 0x1_0000_0000_0000 + (x / 0x100_0000_0000_0000 % 0x100) * 0x100_0000_0000_0000)
        by (bit_vector);
}

/// The integer that 8 bytes encode gives each of them back.
proof fn lemma_u64_digits(b0: u8, b1: u8, b2: u8, b3: u8, b4: u8, b5: u8, b6: u8, b7: u8)
    by (bit_vector)
    ensures
        ({
            let x = (b0 as u64) + (b1 as u64) * 0x100 + (b2 as u64) * 0x1_0000 + (b3 as u64)
                * 0x100_0000 + (b4 as u64) * 0x1_0000_0000 + (b5 as u64) * 0x100_0000_0000 + (
            b6 as u64) * 0x1_0000_0000_0000 + (b7 as u64) * 0x100_0000_0000_0000;
            &&& x <= 0xffff_ffff_ffff_ffff
            &&& x % 0x100 == b0
            &&& x / 0x100 % 0x100 == b1
            &&& x / 0x1_0000 % 0x100 == b2
            &&& x / 0x100_0000 % 0x100 == b3
            &&& x / 0x1_0000_0000 % 0x100 == b4
            &&& x / 0x100_0000_0000 % 0x100 == b5
            &&& x / 0x1_0000_0000_0000 % 0x100 == b6
            &&& x / 0x100_0000_0000_0000 % 0x100 == b7
        }),
{
}

/// Encoding what was decoded gives the 8 bytes back.
pub proof fn lemma_u64_le_bytes_round_trip(s: Seq<u8>)
    requires
        s.len() == 8,
    ensures
        u64_to_le_bytes(u64_from_le_bytes(s)) == s,
{
    lemma_u64_digits(s[0], s[1], s[2], s[3], s[4], s[5], s[6], s[7]);
    assert(u64_to_le_bytes(u64_from_le_bytes(s)) =~= s);
}

/// Reads the integer stored little-endian in the 8 bytes of `src` from `offset` on.
pub(crate) fn read_u64_le(src: &[u8], offset: usize) -> (r: u64)
    requires
        offset + 8 <= src@.len(),
    ensures
        r == u64_from_le_bytes(src@.subrange(offset as int, offset + 8)),
{
    let b0: u64 = src[offset] as u64;
    let b1: u64 = src[offset + 1] as u64;
    let b2: u64 = src[offset + 2] as u64;
    let b3: u64 = src[offset + 3] as u64;
    let b4: u64 = src[offset + 4] as u64;
    let b5: u64 = src[offset + 5] as u64;
    let b6: u64 = src[offset + 6] as u64;
    let b7: u64 = src[offset + 7] as u64;
    b0 + b1 * 0x100 + b2 * 0x1_0000 + b3 * 0x100_0000 + b4 * 0x1_0000_0000 + b5
        * 0x100_0000_0000 + b6 * 0x1_0000_0000_0000 + b7 * 0x100_0000_0000_0000
}

/// Stores `x` little-endian in the 8 bytes of `dst` from `offset` on.
pub(crate) fn write_u64_le(dst: &mut [u8], offset: usize, x: u64)
    requires
        offset + 8 <= old(dst)@.len(),
    ensures
        final(dst)@.len() == old(dst)@.len(),
        final(dst)@.subrange(offset as int, offset + 8) == u64_to_le_bytes(x),
        forall|i: int|
            0 <= i < old(dst)@.len() && !(offset <= i < offset + 8) ==> final(dst)@[i] == old(
                dst,
            )@[i],
{
    dst[offset] = (x % 0x100) as u8;
    dst[offset + 1] = (x / 0x100 % 0x100) as u8;
    dst[offset + 2] = (x / 0x1_0000 % 0x100) as u8;
    dst[offset + 3] = (x / 0x100_0000 % 0x100) as u8;
    dst[offset + 4] = (x / 0x1_0000_0000 % 0x100) as u8;
    dst[offset + 5] = (x / 0x100_0000_0000 % 0x100) as u8;
    dst[offset + 6] = (x / 0x1_0000_0000_0000 % 0x100) as u8;
    dst[offset + 7] = (x / 0x100_0000_0000_0000 % 0x100) as u8;
    assert(dst@.subrange(offset as int, offset + 8) =~= u64_to_le_bytes(x));
}

} // verus!
