//! The binary model: sixteen bytes, read as four fields. The three integer
//! fields are stored in big-endian order, the fourth is stored as it is.
//!
//! | field  | bytes  | read as   |
//! |--------|--------|-----------|
//! | first  | 0..4   | `u32`     |
//! | second | 4..6   | `u16`     |
//! | third  | 6..8   | `u16`     |
//! | fourth | 8..16  | `[u8; 8]` |

use vstd::prelude::*;

use crate::bytes::{lemma_u16_be_roundtrip, lemma_u16_bytes_roundtrip, lemma_u32_be_roundtrip};
use crate::bytes::{lemma_u32_bytes_roundtrip, u16_be_bytes, u16_from_be, u32_be_bytes, u32_from_be};

verus! {

/// The number of bytes of an identifier.
pub const BYTE_LEN: usize = 16;

/// The first field of the bytes `b`.
pub open spec fn field1(b: Seq<u8>) -> u32
    recommends
        b.len() == BYTE_LEN,
{
    u32_from_be(b.subrange(0, 4))
}

/// The second field of the bytes `b`.
pub open spec fn field2(b: Seq<u8>) -> u16
    recommends
        b.len() == BYTE_LEN,
{
    u16_from_be(b.subrange(4, 6))
}

/// The third field of the bytes `b`.
pub open spec fn field3(b: Seq<u8>) -> u16
    recommends
        b.len() == BYTE_LEN,
{
    u16_from_be(b.subrange(6, 8))
}

/// The fourth field of the bytes `b`.
pub open spec fn field4(b: Seq<u8>) -> Seq<u8>
    recommends
        b.len() == BYTE_LEN,
{
    b.subrange(8, 16)
}

/// The sixteen bytes that hold the four fields given.
pub open spec fn from_fields(d1: u32, d2: u16, d3: u16, d4: Seq<u8>) -> Seq<u8>
    recommends
        d4.len() == 8,
{
    u32_be_bytes(d1) + u16_be_bytes(d2) + u16_be_bytes(d3) + d4
}

/// Component symmetry: each field read from the bytes built from four fields
/// is the field that was given.
pub proof fn lemma_fields_of_from_fields(d1: u32, d2: u16, d3: u16, d4: Seq<u8>)
    requires
        d4.len() == 8,
    ensures
        from_fields(d1, d2, d3, d4).len() == BYTE_LEN,
        field1(from_fields(d1, d2, d3, d4)) == d1,
        field2(from_fields(d1, d2, d3, d4)) == d2,
        field3(from_fields(d1, d2, d3, d4)) == d3,
        field4(from_fields(d1, d2, d3, d4)) == d4,
{
    let b = from_fields(d1, d2, d3, d4);
    lemma_u32_be_roundtrip(d1);
    lemma_u16_be_roundtrip(d2);
    lemma_u16_be_roundtrip(d3);
    assert(b.subrange(0, 4) =~= u32_be_bytes(d1));
    assert(b.subrange(4, 6) =~= u16_be_bytes(d2));
    assert(b.subrange(6, 8) =~= u16_be_bytes(d3));
    assert(b.subrange(8, 16) =~= d4);
}

/// Any sixteen bytes are the bytes built from their own four fields.
pub proof fn lemma_from_fields_of_fields(b: Seq<u8>)
    requires
        b.len() == BYTE_LEN,
    ensures
        from_fields(field1(b), field2(b), field3(b), field4(b)) == b,
{
    lemma_u32_bytes_roundtrip(b.subrange(0, 4));
    lemma_u16_bytes_roundtrip(b.subrange(4, 6));
    lemma_u16_bytes_roundtrip(b.subrange(6, 8));
}

} // verus!
