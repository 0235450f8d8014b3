//! What holds between reading and writing the canonical form: each undoes
//! the other, up to the case of the digits.

use vstd::prelude::*;

use crate::layout::BYTE_LEN;
use crate::text::{decode, encode, hex_char_value, hex_decode, hex_encode, is_canonical};
use crate::text::{is_hex_char, is_hex_run, upper_hex_char, TEXT_LEN};

verus! {

/// The hexadecimal digit `c` in upper case; any other character as it is.
pub open spec fn to_upper_hex(c: char) -> char {
    if 'a' <= c <= 'f' {
        (c as int - 'a' as int + 'A' as int) as char
    } else {
        c
    }
}

/// The text `t` with its hexadecimal digits in upper case.
pub open spec fn canonicalize(t: Seq<char>) -> Seq<char> {
    Seq::new(t.len(), |i: int| to_upper_hex(t[i]))
}

/// The upper-case digit of a nibble is a digit, and stands for the nibble.
pub proof fn lemma_upper_hex_char(n: int)
    requires
        0 <= n < 16,
    ensures
        is_hex_char(upper_hex_char(n)),
        hex_char_value(upper_hex_char(n)) == n,
        to_upper_hex(upper_hex_char(n)) == upper_hex_char(n),
{
}

/// A digit stands for a nibble, whose upper-case digit is the digit in upper
/// case.
pub proof fn lemma_hex_char_value(c: char)
    requires
        is_hex_char(c),
    ensures
        0 <= hex_char_value(c) < 16,
        upper_hex_char(hex_char_value(c)) == to_upper_hex(c),
{
}

/// The digits written for some bytes are digits, two for each byte, and
/// stand for those bytes.
pub proof fn lemma_hex_decode_encode(b: Seq<u8>)
    ensures
        hex_encode(b).len() == 2 * b.len(),
        is_hex_run(hex_encode(b)),
        hex_decode(hex_encode(b)) == b,
{
    let t = hex_encode(b);
    assert forall|i: int| 0 <= i < t.len() implies is_hex_char(#[trigger] t[i]) by {
        lemma_upper_hex_char(b[i / 2] as int / 16);
        lemma_upper_hex_char(b[i / 2] as int % 16);
    }
    assert forall|k: int| 0 <= k < b.len() implies hex_decode(t)[k] == b[k] by {
        lemma_upper_hex_char(b[k] as int / 16);
        lemma_upper_hex_char(b[k] as int % 16);
    }
}

/// The bytes that an even run of digits stands for are written as the same
/// digits in upper case.
pub proof fn lemma_hex_encode_decode(t: Seq<char>)
    requires
        is_hex_run(t),
        t.len() % 2 == 0,
    ensures
        2 * hex_decode(t).len() == t.len(),
        hex_encode(hex_decode(t)) == canonicalize(t),
{
    let b = hex_decode(t);
    assert forall|i: int| 0 <= i < t.len() implies hex_encode(b)[i] == to_upper_hex(t[i]) by {
        let k = i / 2;
        lemma_hex_char_value(t[2 * k]);
        lemma_hex_char_value(t[2 * k + 1]);
    }
}

/// Round trip from bytes: the text written for sixteen bytes is in the
/// canonical form, has 36 characters, and is read back as those bytes.
pub proof fn lemma_decode_encode(b: Seq<u8>)
    requires
        b.len() == BYTE_LEN,
    ensures
        encode(b).len() == TEXT_LEN,
        is_canonical(encode(b)),
        decode(encode(b)) == b,
{
    let t = encode(b);
    lemma_hex_decode_encode(b.subrange(0, 4));
    lemma_hex_decode_encode(b.subrange(4, 6));
    lemma_hex_decode_encode(b.subrange(6, 8));
    lemma_hex_decode_encode(b.subrange(8, 10));
    lemma_hex_decode_encode(b.subrange(10, 16));
    assert(t.subrange(0, 8) =~= hex_encode(b.subrange(0, 4)));
    assert(t.subrange(9, 13) =~= hex_encode(b.subrange(4, 6)));
    assert(t.subrange(14, 18) =~= hex_encode(b.subrange(6, 8)));
    assert(t.subrange(19, 23) =~= hex_encode(b.subrange(8, 10)));
    assert(t.subrange(24, 36) =~= hex_encode(b.subrange(10, 16)));
}

/// Round trip from text: a text in the canonical form stands for sixteen
/// bytes, and these are written as the same text with its digits in upper
/// case.
pub proof fn lemma_encode_decode(t: Seq<char>)
    requires
        is_canonical(t),
    ensures
        decode(t).len() == BYTE_LEN,
        encode(decode(t)) == canonicalize(t),
{
    let b = decode(t);
    lemma_hex_encode_decode(t.subrange(0, 8));
    lemma_hex_encode_decode(t.subrange(9, 13));
    lemma_hex_encode_decode(t.subrange(14, 18));
    lemma_hex_encode_decode(t.subrange(19, 23));
    lemma_hex_encode_decode(t.subrange(24, 36));
    assert(b.subrange(0, 4) =~= hex_decode(t.subrange(0, 8)));
    assert(b.subrange(4, 6) =~= hex_decode(t.subrange(9, 13)));
    assert(b.subrange(6, 8) =~= hex_decode(t.subrange(14, 18)));
    assert(b.subrange(8, 10) =~= hex_decode(t.subrange(19, 23)));
    assert(b.subrange(10, 16) =~= hex_decode(t.subrange(24, 36)));
}

} // verus!
