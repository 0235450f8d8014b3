//! Texts and their UTF-8 bytes: a text in the canonical form is ASCII, and
//! a text is in the canonical form exactly if its bytes, read one character
//! for each byte, are.

use vstd::prelude::*;
use vstd::utf8::{encode_scalar, encode_utf8, has_width_1_encoding, is_ascii_chars};
use vstd::utf8::{is_ascii_chars_encode_utf8, leading_byte_width_2, leading_byte_width_3};
use vstd::utf8::leading_byte_width_4;

use crate::text::{byte_chars, is_canonical, is_hex_char};

verus! {

/// Every byte of `s` is below 0x80.
pub open spec fn is_ascii_bytes(s: Seq<u8>) -> bool {
    forall|i: int| 0 <= i < s.len() ==> #[trigger] s[i] < 0x80
}

/// The first byte of the encoding of a character outside ASCII is 0xC0 or
/// more.
proof fn lemma_leading_byte(c: u32)
    ensures
        !has_width_1_encoding(c) ==> encode_scalar(c).len() >= 2 && encode_scalar(c)[0] >= 0xC0,
        has_width_1_encoding(c) ==> encode_scalar(c).len() == 1,
{
    assert(leading_byte_width_2(c) >= 0xC0) by (bit_vector);
    assert(leading_byte_width_3(c) >= 0xC0) by (bit_vector);
    assert(leading_byte_width_4(c) >= 0xC0) by (bit_vector);
}

/// A character that is encoded in one byte is an ASCII character.
proof fn lemma_width_1_is_ascii(c: char)
    requires
        has_width_1_encoding(c as u32),
    ensures
        '\0' <= c <= '\u{7f}',
{
}

/// A text whose UTF-8 encoding holds no byte of 0x80 or more is ASCII.
pub proof fn lemma_ascii_bytes_of_ascii_chars_only(t: Seq<char>)
    requires
        is_ascii_bytes(encode_utf8(t)),
    ensures
        is_ascii_chars(t),
    decreases t.len(),
{
    if t.len() > 0 {
        let c = t[0] as u32;
        let head = encode_scalar(c);
        let rest = t.drop_first();
        let all = encode_utf8(t);
        lemma_leading_byte(c);
        assert(all[0] == head[0]);
        assert forall|i: int| 0 <= i < encode_utf8(rest).len() implies #[trigger] encode_utf8(
            rest,
        )[i] < 0x80 by {
            assert(all[i + 1] == encode_utf8(rest)[i]);
        }
        lemma_ascii_bytes_of_ascii_chars_only(rest);
        assert forall|i: int| 0 <= i < t.len() implies '\0' <= #[trigger] t[i] <= '\u{7f}' by {
            if i > 0 {
                assert(t[i] == rest[i - 1]);
            } else {
                lemma_width_1_is_ascii(t[0]);
            }
        }
    }
}

/// A text in the canonical form holds ASCII characters only.
pub proof fn lemma_canonical_is_ascii(t: Seq<char>)
    requires
        is_canonical(t),
    ensures
        is_ascii_chars(t),
{
    assert forall|i: int| 0 <= i < t.len() implies '\0' <= #[trigger] t[i] <= '\u{7f}' by {
        lemma_canonical_char(t, i);
    }
}

/// Each character of a text in the canonical form is a dash or a digit.
pub proof fn lemma_canonical_char(t: Seq<char>, i: int)
    requires
        is_canonical(t),
        0 <= i < 36,
    ensures
        t[i] == '-' || is_hex_char(t[i]),
        (i == 8 || i == 13 || i == 18 || i == 23) <==> t[i] == '-',
{
    if i < 8 {
        assert(t.subrange(0, 8)[i] == t[i]);
    } else if 9 <= i < 13 {
        assert(t.subrange(9, 13)[i - 9] == t[i]);
    } else if 14 <= i < 18 {
        assert(t.subrange(14, 18)[i - 14] == t[i]);
    } else if 19 <= i < 23 {
        assert(t.subrange(19, 23)[i - 19] == t[i]);
    } else if 24 <= i {
        assert(t.subrange(24, 36)[i - 24] == t[i]);
    }
}

/// A text is in the canonical form exactly if its UTF-8 bytes are, and then
/// each byte is one character of it.
pub proof fn lemma_canonical_utf8(t: Seq<char>)
    ensures
        is_canonical(t) <==> is_canonical(byte_chars(encode_utf8(t))),
        is_canonical(t) ==> byte_chars(encode_utf8(t)) == t,
{
    let s = encode_utf8(t);
    if is_canonical(t) {
        lemma_canonical_is_ascii(t);
        is_ascii_chars_encode_utf8(t);
        assert(byte_chars(s) =~= t);
    }
    if is_canonical(byte_chars(s)) {
        assert forall|i: int| 0 <= i < s.len() implies #[trigger] s[i] < 0x80 by {
            lemma_canonical_char(byte_chars(s), i);
        }
        lemma_ascii_bytes_of_ascii_chars_only(t);
        is_ascii_chars_encode_utf8(t);
        assert(byte_chars(s) =~= t);
    }
}

} // verus!
