//! ASCII text building blocks for the presenter: decimal rendering of
//! integers, fixed-point display units, and hexadecimal key encoding. All of
//! it works on byte sequences; a single trusted conversion near the presenter
//! turns finished ASCII bytes into a `String`.

use vstd::prelude::*;

verus! {

/// The ASCII characters that a byte sequence spells, byte for byte.
/// Meaningful when every byte is below 0x80.
pub open spec fn ascii_chars(s: Seq<u8>) -> Seq<char> {
    s.map_values(|b: u8| b as char)
}

/// Every byte of `s` is ASCII.
pub open spec fn all_ascii(s: Seq<u8>) -> bool {
    forall|i: int| 0 <= i < s.len() ==> s[i] < 0x80
}

/// Decimal digits of `v`, most significant first, no leading zeros.
pub open spec fn dec_digits(v: nat) -> Seq<u8>
    decreases v,
{
    if v < 10 {
        seq![(0x30 + v) as u8]
    } else {
        dec_digits(v / 10) + seq![(0x30 + v % 10) as u8]
    }
}

/// Renders `v` in decimal ASCII.
pub fn dec_u64(v: u64) -> (r: Vec<u8>)
    ensures
        r@ == dec_digits(v as nat),
    decreases v,
{
    if v < 10 {
        let mut r: Vec<u8> = Vec::new();
        r.push(0x30 + (v as u8));
        r
    } else {
        let mut r = dec_u64(v / 10);
        r.push(0x30 + ((v % 10) as u8));
        r
    }
}

/// Hexadecimal digit for a value below 16, lower case.
pub open spec fn hex_digit(v: u8) -> u8 {
    if v < 10 {
        (0x30 + v) as u8
    } else {
        (0x61 + (v - 10)) as u8
    }
}

/// Hexadecimal spelling of a byte sequence, two digits per byte.
pub open spec fn hex_of(s: Seq<u8>) -> Seq<u8>
    decreases s.len(),
{
    if s.len() == 0 {
        Seq::empty()
    } else {
        seq![hex_digit(s[0] / 16), hex_digit(s[0] % 16)] + hex_of(s.skip(1))
    }
}

/// Value of an ASCII hex digit, if it is one.
pub open spec fn hex_val(c: u8) -> Option<u8> {
    if 0x30 <= c <= 0x39 {
        Some((c - 0x30) as u8)
    } else if 0x61 <= c <= 0x66 {
        Some((c - 0x61 + 10) as u8)
    } else {
        None
    }
}

/// Bytes spelled by an ASCII hex string, or nothing if a character is not a
/// lower-case hex digit or the length is odd.
pub open spec fn hex_parse(s: Seq<u8>) -> Option<Seq<u8>>
    decreases s.len(),
{
    if s.len() == 0 {
        Some(Seq::empty())
    } else if s.len() == 1 {
        None
    } else {
        match (hex_val(s[0]), hex_val(s[1]), hex_parse(s.skip(2))) {
            (Some(h), Some(l), Some(rest)) => Some(seq![(h * 16 + l) as u8] + rest),
            _ => None,
        }
    }
}

fn hex_digit_exec(v: u8) -> (r: u8)
    requires
        v < 16,
    ensures
        r == hex_digit(v),
{
    if v < 10 {
        0x30 + v
    } else {
        0x61 + (v - 10)
    }
}

/// Renders a byte sequence in lower-case hexadecimal.
pub fn hex_encode(s: &[u8]) -> (r: Vec<u8>)
    ensures
        r@ == hex_of(s@),
    decreases s@.len(),
{
    if s.len() == 0 {
        Vec::new()
    } else {
        let b = s[0];
        let mut r: Vec<u8> = Vec::new();
        r.push(hex_digit_exec(b / 16));
        r.push(hex_digit_exec(b % 16));
        let mut rest = hex_encode(vstd::slice::slice_subrange(s, 1, s.len()));
        r.append(&mut rest);
        assert(s@.skip(1) == s@.subrange(1, s@.len() as int));
        r
    }
}

fn hex_val_exec(c: u8) -> (r: Option<u8>)
    ensures
        r == hex_val(c),
{
    if 0x30 <= c && c <= 0x39 {
        Some(c - 0x30)
    } else if 0x61 <= c && c <= 0x66 {
        Some(c - 0x61 + 10)
    } else {
        None
    }
}

/// Parses a lower-case hexadecimal byte string back into bytes.
pub fn hex_decode(s: &[u8]) -> (r: Option<Vec<u8>>)
    ensures
        match r {
            Some(v) => hex_parse(s@) == Some(v@),
            None => hex_parse(s@) is None,
        },
    decreases s@.len(),
{
    if s.len() == 0 {
        Some(Vec::new())
    } else if s.len() == 1 {
        None
    } else {
        let h = hex_val_exec(s[0]);
        let l = hex_val_exec(s[1]);
        let rest = hex_decode(vstd::slice::slice_subrange(s, 2, s.len()));
        assert(s@.skip(2) == s@.subrange(2, s@.len() as int));
        match (h, l, rest) {
            (Some(h), Some(l), Some(rest)) => {
                let mut r: Vec<u8> = Vec::new();
                r.push(h * 16 + l);
                let mut tail = rest;
                r.append(&mut tail);
                Some(r)
            },
            _ => None,
        }
    }
}

/// Hex encoding spells only ASCII bytes.
pub proof fn lemma_hex_ascii(s: Seq<u8>)
    ensures
        all_ascii(hex_of(s)),
    decreases s.len(),
{
    if s.len() != 0 {
        lemma_hex_ascii(s.skip(1));
    }
}

/// Decimal digits are ASCII.
pub proof fn lemma_dec_ascii(v: nat)
    ensures
        all_ascii(dec_digits(v)),
    decreases v,
{
    if v >= 10 {
        lemma_dec_ascii(v / 10);
    }
}

/// Relies on std's String::from_utf8: ASCII bytes are valid UTF-8 and form
/// the string that spells exactly those bytes as characters.
#[verifier::external_body]
pub(crate) fn ascii_to_string(v: Vec<u8>) -> (r: String)
    requires
        all_ascii(v@),
    ensures
        r@ == ascii_chars(v@),
{
    String::from_utf8(v).unwrap()
}

} // verus!
