//! The canonical textual form, `XXXXXXXX-XXXX-XXXX-XXXX-XXXXXXXXXXXX`:
//! five runs of hexadecimal digits, of 8, 4, 4, 4 and 12 digits, with a dash
//! between each two. Two digits stand for one byte, the high nibble first.

use vstd::prelude::*;
use vstd::string::StringExecFns;

use crate::error::ParseError;

verus! {

/// The number of characters of the canonical form.
pub const TEXT_LEN: usize = 36;

/// The byte of the character `0`.
const DIGIT_0: u8 = 0x30;

/// The byte of the character `9`.
const DIGIT_9: u8 = 0x39;

/// The byte of the character `A`.
const UPPER_A: u8 = 0x41;

/// The byte of the character `F`.
const UPPER_F: u8 = 0x46;

/// The byte of the character `a`.
const LOWER_A: u8 = 0x61;

/// The byte of the character `f`.
const LOWER_F: u8 = 0x66;

/// The byte of the character `-`.
const DASH: u8 = 0x2D;

/// `c` is one of `0`-`9`, `A`-`F`, `a`-`f`.
pub open spec fn is_hex_char(c: char) -> bool {
    ('0' <= c <= '9') || ('A' <= c <= 'F') || ('a' <= c <= 'f')
}

/// The number, 0 to 15, that the hexadecimal digit `c` stands for.
pub open spec fn hex_char_value(c: char) -> int
    recommends
        is_hex_char(c),
{
    if '0' <= c <= '9' {
        c as int - '0' as int
    } else if 'A' <= c <= 'F' {
        c as int - 'A' as int + 10
    } else {
        c as int - 'a' as int + 10
    }
}

/// The upper-case hexadecimal digit for `n`.
pub open spec fn upper_hex_char(n: int) -> char
    recommends
        0 <= n < 16,
{
    if n < 10 {
        ('0' as int + n) as char
    } else {
        ('A' as int + n - 10) as char
    }
}

/// Every character of `t` is a hexadecimal digit.
pub open spec fn is_hex_run(t: Seq<char>) -> bool {
    forall|i: int| 0 <= i < t.len() ==> is_hex_char(#[trigger] t[i])
}

/// The bytes that a run of hexadecimal digits stands for, two digits a byte.
pub open spec fn hex_decode(t: Seq<char>) -> Seq<u8>
    recommends
        is_hex_run(t),
        t.len() % 2 == 0,
{
    Seq::new(
        t.len() / 2,
        |k: int| (hex_char_value(t[2 * k]) * 16 + hex_char_value(t[2 * k + 1])) as u8,
    )
}

/// The upper-case hexadecimal digits of `b`, two for each byte.
pub open spec fn hex_encode(b: Seq<u8>) -> Seq<char> {
    Seq::new(
        2 * b.len(),
        |i: int|
            if i % 2 == 0 {
                upper_hex_char(b[i / 2] as int / 16)
            } else {
                upper_hex_char(b[i / 2] as int % 16)
            },
    )
}

/// `t` is in the canonical form, in either case of the digits.
pub open spec fn is_canonical(t: Seq<char>) -> bool {
    &&& t.len() == TEXT_LEN
    &&& is_hex_run(t.subrange(0, 8))
    &&& t[8] == '-'
    &&& is_hex_run(t.subrange(9, 13))
    &&& t[13] == '-'
    &&& is_hex_run(t.subrange(14, 18))
    &&& t[18] == '-'
    &&& is_hex_run(t.subrange(19, 23))
    &&& t[23] == '-'
    &&& is_hex_run(t.subrange(24, 36))
}

/// The sixteen bytes that a text in the canonical form stands for.
pub open spec fn decode(t: Seq<char>) -> Seq<u8>
    recommends
        is_canonical(t),
{
    hex_decode(t.subrange(0, 8)) + hex_decode(t.subrange(9, 13)) + hex_decode(t.subrange(14, 18))
        + hex_decode(t.subrange(19, 23)) + hex_decode(t.subrange(24, 36))
}

/// The canonical form of sixteen bytes, with upper-case digits.
pub open spec fn encode(b: Seq<u8>) -> Seq<char>
    recommends
        b.len() == 16,
{
    hex_encode(b.subrange(0, 4)) + seq!['-'] + hex_encode(b.subrange(4, 6)) + seq!['-']
        + hex_encode(b.subrange(6, 8)) + seq!['-'] + hex_encode(b.subrange(8, 10)) + seq!['-']
        + hex_encode(b.subrange(10, 16))
}

/// The characters of a text given by its bytes, one character for each byte.
pub open spec fn byte_chars(s: Seq<u8>) -> Seq<char> {
    Seq::new(s.len(), |i: int| s[i] as char)
}

/// The value of one hexadecimal digit.
fn hex_value(ch: u8) -> (r: Result<u8, ParseError>)
    ensures
        match r {
            Ok(v) => is_hex_char(ch as char) && v == hex_char_value(ch as char),
            Err(_) => !is_hex_char(ch as char),
        },
{
    if DIGIT_0 <= ch && ch <= DIGIT_9 {
        Ok(ch - DIGIT_0)
    } else if UPPER_A <= ch && ch <= UPPER_F {
        Ok(ch - UPPER_A + 10)
    } else if LOWER_A <= ch && ch <= LOWER_F {
        Ok(ch - LOWER_A + 10)
    } else {
        Err(ParseError)
    }
}

/// The byte that the two digits at `pos` stand for.
fn hex_byte(s: &[u8], pos: usize) -> (r: Result<u8, ParseError>)
    requires
        pos <= s.len(),
    ensures
        match r {
            Ok(v) => {
                &&& pos + 2 <= s.len()
                &&& is_hex_char(s[pos as int] as char)
                &&& is_hex_char(s[pos + 1] as char)
                &&& v == hex_char_value(s[pos as int] as char) * 16 + hex_char_value(
                    s[pos + 1] as char,
                )
            },
            Err(_) => !(pos + 2 <= s.len() && is_hex_char(s[pos as int] as char) && is_hex_char(
                s[pos + 1] as char,
            )),
        },
{
    if s.len() - pos < 2 {
        return Err(ParseError);
    }
    let a = hex_value(s[pos])?;
    let b = hex_value(s[pos + 1])?;
    Ok(a * 16 + b)
}

/// Steps over a dash at `pos`.
fn strip_dash(s: &[u8], pos: usize) -> (r: Result<usize, ParseError>)
    requires
        pos <= s.len(),
    ensures
        match r {
            Ok(next) => pos < s.len() && s[pos as int] as char == '-' && next == pos + 1,
            Err(_) => !(pos < s.len() && s[pos as int] as char == '-'),
        },
{
    if pos < s.len() && s[pos] == DASH {
        Ok(pos + 1)
    } else {
        Err(ParseError)
    }
}

/// Reads the digits of `buf[lo..hi]` from `s`, starting at `pos`.
fn fill(buf: &mut [u8; 16], lo: usize, hi: usize, s: &[u8], pos: usize) -> (r: Result<
    usize,
    ParseError,
>)
    requires
        lo <= hi <= 16,
        pos <= s.len(),
    ensures
        forall|j: int| 0 <= j < lo ==> final(buf)@[j] == old(buf)@[j],
        match r {
            Ok(next) => {
                &&& next == pos + 2 * (hi - lo)
                &&& next <= s.len()
                &&& is_hex_run(byte_chars(s@).subrange(pos as int, next as int))
                &&& final(buf)@.subrange(lo as int, hi as int) == hex_decode(
                    byte_chars(s@).subrange(pos as int, next as int),
                )
            },
            Err(_) => !(pos + 2 * (hi - lo) <= s.len() && is_hex_run(
                byte_chars(s@).subrange(pos as int, pos + 2 * (hi - lo)),
            )),
        },
{
    let ghost run_end = pos + 2 * (hi - lo);
    let mut at = pos;
    let mut i = lo;
    while i < hi
        invariant
            lo <= i <= hi <= 16,
            at == pos + 2 * (i - lo),
            at <= s.len(),
            run_end == pos + 2 * (hi - lo),
            forall|j: int| 0 <= j < lo ==> buf@[j] == old(buf)@[j],
            forall|j: int| pos <= j < at ==> is_hex_char(#[trigger] s@[j] as char),
            forall|k: int|
                lo <= k < i ==> #[trigger] buf@[k] == hex_char_value(
                    s@[pos + 2 * (k - lo)] as char,
                ) * 16 + hex_char_value(s@[pos + 2 * (k - lo) + 1] as char),
        decreases hi - i,
    {
        match hex_byte(s, at) {
            Ok(d) => {
                buf[i] = d;
            },
            Err(e) => {
                proof {
                    if run_end <= s.len() {
                        let run = byte_chars(s@).subrange(pos as int, run_end);
                        assert(run[at - pos] == s@[at as int] as char);
                        assert(run[at - pos + 1] == s@[at + 1] as char);
                    }
                }
                return Err(e);
            },
        }
        at += 2;
        i += 1;
    }
    Ok(at)
}

/// Reads a text in the canonical form, given by its bytes.
pub(crate) fn parse_text(s: &[u8]) -> (r: Result<[u8; 16], ParseError>)
    ensures
        match r {
            Ok(data) => is_canonical(byte_chars(s@)) && data@ == decode(byte_chars(s@)),
            Err(_) => !is_canonical(byte_chars(s@)),
        },
{
    let mut data = [0u8;16];

    let pos = fill(&mut data, 0, 4, s, 0)?;
    let pos = strip_dash(s, pos)?;

    let pos = fill(&mut data, 4, 6, s, pos)?;
    let pos = strip_dash(s, pos)?;

    let pos = fill(&mut data, 6, 8, s, pos)?;
    let pos = strip_dash(s, pos)?;

    let pos = fill(&mut data, 8, 10, s, pos)?;
    let pos = strip_dash(s, pos)?;

    let pos = fill(&mut data, 10, 16, s, pos)?;

    if pos == s.len() {
        Ok(data)
    } else {
        Err(ParseError)
    }
}

/// The upper-case digit of a nibble, as a text of one character.
fn upper_hex_digit(n: u8) -> (r: &'static str)
    requires
        n < 16,
    ensures
        r@ == seq![upper_hex_char(n as int)],
{
    proof {
        reveal_strlit("0");
        reveal_strlit("1");
        reveal_strlit("2");
        reveal_strlit("3");
        reveal_strlit("4");
        reveal_strlit("5");
        reveal_strlit("6");
        reveal_strlit("7");
        reveal_strlit("8");
        reveal_strlit("9");
        reveal_strlit("A");
        reveal_strlit("B");
        reveal_strlit("C");
        reveal_strlit("D");
        reveal_strlit("E");
        reveal_strlit("F");
    }
    match n {
        0 => "0",
        1 => "1",
        2 => "2",
        3 => "3",
        4 => "4",
        5 => "5",
        6 => "6",
        7 => "7",
        8 => "8",
        9 => "9",
        10 => "A",
        11 => "B",
        12 => "C",
        13 => "D",
        14 => "E",
        _ => "F",
    }
}

/// Appends the digits of `data[lo..hi]` to `out`.
fn push_hex(out: &mut String, data: &[u8; 16], lo: usize, hi: usize)
    requires
        lo <= hi <= 16,
    ensures
        final(out)@ == old(out)@ + hex_encode(data@.subrange(lo as int, hi as int)),
{
    let mut i = lo;
    while i < hi
        invariant
            lo <= i <= hi <= 16,
            out@ == old(out)@ + hex_encode(data@.subrange(lo as int, i as int)),
        decreases hi - i,
    {
        let b = data[i];
        out.append(upper_hex_digit(b / 16));
        out.append(upper_hex_digit(b % 16));
        assert(hex_encode(data@.subrange(lo as int, i + 1)) =~= hex_encode(
            data@.subrange(lo as int, i as int),
        ) + seq![upper_hex_char(b as int / 16)] + seq![upper_hex_char(b as int % 16)]);
        i += 1;
    }
}

/// Writes sixteen bytes in the canonical form.
pub(crate) fn format_text(data: &[u8; 16]) -> (s: String)
    ensures
        s@ == encode(data@),
{
    proof {
        reveal_strlit("-");
    }
    let mut out = String::new();
    push_hex(&mut out, data, 0, 4);
    out.append("-");
    push_hex(&mut out, data, 4, 6);
    out.append("-");
    push_hex(&mut out, data, 6, 8);
    out.append("-");
    push_hex(&mut out, data, 8, 10);
    out.append("-");
    push_hex(&mut out, data, 10, 16);
    out
}

} // verus!
