//! Standard base64: the alphabet `A`–`Z`, `a`–`z`, `0`–`9`, `+`, `/`, with
//! `=` padding. This is how binary metadata values are shown.
use vstd::prelude::*;
use crate::text::string_of;

verus! {

/// The base64 character of a six-bit value `v < 64`: `A`–`Z` for 0–25,
/// `a`–`z` for 26–51, `0`–`9` for 52–61, `+` for 62 and `/` for 63.
pub open spec fn sextet_char(v: nat) -> char {
    if v < 26 {
        ((v + 65) as u32) as char
    } else if v < 52 {
        ((v + 71) as u32) as char
    } else if v < 62 {
        ((v - 4) as u32) as char
    } else if v == 62 {
        '+'
    } else {
        '/'
    }
}

/// The four characters that encode the three bytes `b0 b1 b2`: their 24
/// bits, taken six at a time from the most significant.
pub open spec fn group_chars(b0: u8, b1: u8, b2: u8) -> Seq<char> {
    seq![
        sextet_char((b0 / 4) as nat),
        sextet_char(((b0 % 4) * 16 + b1 / 16) as nat),
        sextet_char(((b1 % 16) * 4 + b2 / 64) as nat),
        sextet_char((b2 % 64) as nat),
    ]
}

/// The base64 text of a byte sequence: each group of three bytes becomes
/// four characters; a last group of one byte becomes two characters and
/// `==`, one of two bytes three characters and `=`.
pub open spec fn base64(bytes: Seq<u8>) -> Seq<char>
    decreases bytes.len(),
{
    if bytes.len() == 0 {
        seq![]
    } else if bytes.len() == 1 {
        seq![sextet_char((bytes[0] / 4) as nat), sextet_char(((bytes[0] % 4) * 16) as nat), '=', '=']
    } else if bytes.len() == 2 {
        seq![
            sextet_char((bytes[0] / 4) as nat),
            sextet_char(((bytes[0] % 4) * 16 + bytes[1] / 16) as nat),
            sextet_char(((bytes[1] % 16) * 4) as nat),
            '=',
        ]
    } else {
        group_chars(bytes[0], bytes[1], bytes[2]) + base64(bytes.subrange(3, bytes.len() as int))
    }
}

/// The base64 character of a six-bit value.
fn sextet(v: u8) -> (c: char)
    requires
        v < 64,
    ensures
        c == sextet_char(v as nat),
{
    if v < 26 {
        (v + 65) as char
    } else if v < 52 {
        (v + 71) as char
    } else if v < 62 {
        (v - 4) as char
    } else if v == 62 {
        '+'
    } else {
        '/'
    }
}

/// The base64 text of a byte slice.
pub fn base64_text(bytes: &[u8]) -> (r: String)
    ensures
        r@ == base64(bytes@),
{
    let n = bytes.len();
    let mut out: Vec<char> = Vec::new();
    let mut i: usize = 0;
    proof {
        assert(bytes@.subrange(0, n as int) =~= bytes@);
        assert(out@ + base64(bytes@) =~= base64(bytes@));
    }
    while n - i >= 3
        invariant
            i <= n,
            n == bytes@.len(),
            out@ + base64(bytes@.subrange(i as int, n as int)) == base64(bytes@),
        decreases n - i,
    {
        let b0 = bytes[i];
        let b1 = bytes[i + 1];
        let b2 = bytes[i + 2];
        let ghost before = out@;
        let ghost rest = bytes@.subrange(i as int, n as int);
        out.push(sextet(b0 / 4));
        out.push(sextet((b0 % 4) * 16 + b1 / 16));
        out.push(sextet((b1 % 16) * 4 + b2 / 64));
        out.push(sextet(b2 % 64));
        proof {
            assert(rest.subrange(3, rest.len() as int) =~= bytes@.subrange(i + 3, n as int));
            assert(base64(rest) == group_chars(b0, b1, b2) + base64(bytes@.subrange(i + 3, n as int)));
            assert(out@ =~= before + group_chars(b0, b1, b2));
            assert(before + base64(rest) =~= out@ + base64(bytes@.subrange(i + 3, n as int)));
        }
        i += 3;
    }
    let ghost rest = bytes@.subrange(i as int, n as int);
    let ghost before = out@;
    if n - i == 1 {
        let b0 = bytes[i];
        out.push(sextet(b0 / 4));
        out.push(sextet((b0 % 4) * 16));
        out.push('=');
        out.push('=');
        assert(out@ =~= before + base64(rest));
    } else if n - i == 2 {
        let b0 = bytes[i];
        let b1 = bytes[i + 1];
        out.push(sextet(b0 / 4));
        out.push(sextet((b0 % 4) * 16 + b1 / 16));
        out.push(sextet((b1 % 16) * 4));
        out.push('=');
        assert(out@ =~= before + base64(rest));
    } else {
        assert(out@ =~= before + base64(rest));
    }
    string_of(&out)
}

} // verus!
