//! Big-endian (network order) integers as byte sequences.

use vstd::prelude::*;

verus! {

/// The two bytes of `x`, most significant first.
pub open spec fn u16_be_bytes(x: u16) -> Seq<u8> {
    seq![(x / 0x100) as u8, (x % 0x100) as u8]
}

/// The four bytes of `x`, most significant first.
pub open spec fn u32_be_bytes(x: u32) -> Seq<u8> {
    seq![
        (x / 0x100_0000) as u8,
        (x / 0x1_0000 % 0x100) as u8,
        (x / 0x100 % 0x100) as u8,
        (x % 0x100) as u8,
    ]
}

/// The integer whose big-endian bytes are the first two bytes of `s`.
pub open spec fn u16_from_be(s: Seq<u8>) -> u16
    recommends
        s.len() >= 2,
{
    (s[0] * 0x100 + s[1]) as u16
}

/// The integer whose big-endian bytes are the first four bytes of `s`.
pub open spec fn u32_from_be(s: Seq<u8>) -> u32
    recommends
        s.len() >= 4,
{
    (s[0] * 0x100_0000 + s[1] * 0x1_0000 + s[2] * 0x100 + s[3]) as u32
}

/// Reading back the big-endian bytes of a 16-bit integer gives the integer.
pub proof fn lemma_u16_be_roundtrip(x: u16)
    ensures
        u16_be_bytes(x).len() == 2,
        u16_from_be(u16_be_bytes(x)) == x,
{
}

/// Reading back the big-endian bytes of a 32-bit integer gives the integer.
pub proof fn lemma_u32_be_roundtrip(x: u32)
    ensures
        u32_be_bytes(x).len() == 4,
        u32_from_be(u32_be_bytes(x)) == x,
{
}

/// Writing out the integer read from two bytes gives those bytes.
pub proof fn lemma_u16_bytes_roundtrip(s: Seq<u8>)
    requires
        s.len() == 2,
    ensures
        u16_be_bytes(u16_from_be(s)) == s,
{
    assert(u16_be_bytes(u16_from_be(s)) =~= s);
}

/// Writing out the integer read from four bytes gives those bytes.
pub proof fn lemma_u32_bytes_roundtrip(s: Seq<u8>)
    requires
        s.len() == 4,
    ensures
        u32_be_bytes(u32_from_be(s)) == s,
{
    assert(u32_be_bytes(u32_from_be(s)) =~= s);
}

/// Splits a 16-bit integer into its big-endian bytes.
pub(crate) fn u16_to_be(x: u16) -> (r: [u8; 2])
    ensures
        r@ == u16_be_bytes(x),
{
    [(x / 0x100) as u8, (x % 0x100) as u8]
}

/// Splits a 32-bit integer into its big-endian bytes.
pub(crate) fn u32_to_be(x: u32) -> (r: [u8; 4])
    ensures
        r@ == u32_be_bytes(x),
{
    [
        (x / 0x100_0000) as u8,
        (x / 0x1_0000 % 0x100) as u8,
        (x / 0x100 % 0x100) as u8,
        (x % 0x100) as u8,
    ]
}

/// Joins two bytes, most significant first, into a 16-bit integer.
pub(crate) fn u16_of_be(hi: u8, lo: u8) -> (r: u16)
    ensures
        r == u16_from_be(seq![hi, lo]),
{
    hi as u16 * 0x100 + lo as u16
}

/// Joins four bytes, most significant first, into a 32-bit integer.
pub(crate) fn u32_of_be(b0: u8, b1: u8, b2: u8, b3: u8) -> (r: u32)
    ensures
        r == u32_from_be(seq![b0, b1, b2, b3]),
{
    b0 as u32 * 0x100_0000 + b1 as u32 * 0x1_0000 + b2 as u32 * 0x100 + b3 as u32
}

} // verus!
