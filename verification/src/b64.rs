//! Base64 with the standard alphabet and `=` padding, verified: encoding and
//! strict decoding are exact inverses, so any value the library spells in
//! base64 (memo fields, the envelope audit string) can be read back
//! byte-identically.

use vstd::prelude::*;

verus! {

/// Alphabet character for a sextet value below 64.
pub open spec fn sext(v: u8) -> u8 {
    if v < 26 {
        (0x41 + v) as u8
    } else if v < 52 {
        (0x61 + (v - 26)) as u8
    } else if v < 62 {
        (0x30 + (v - 52)) as u8
    } else if v == 62 {
        0x2b
    } else {
        0x2f
    }
}

/// Sextet value of an alphabet character, if it is one. Padding (`=`) is not
/// in the alphabet.
pub open spec fn sext_val(c: u8) -> Option<u8> {
    if 0x41 <= c <= 0x5a {
        Some((c - 0x41) as u8)
    } else if 0x61 <= c <= 0x7a {
        Some((c - 0x61 + 26) as u8)
    } else if 0x30 <= c <= 0x39 {
        Some((c - 0x30 + 52) as u8)
    } else if c == 0x2b {
        Some(62u8)
    } else if c == 0x2f {
        Some(63u8)
    } else {
        None
    }
}

// The four sextets of a three-byte group.
pub open spec fn v0(b0: u8) -> u8 {
    (b0 / 4) as u8
}

pub open spec fn v1(b0: u8, b1: u8) -> u8 {
    ((b0 % 4) * 16 + b1 / 16) as u8
}

pub open spec fn v2(b1: u8, b2: u8) -> u8 {
    ((b1 % 16) * 4 + b2 / 64) as u8
}

pub open spec fn v3(b2: u8) -> u8 {
    (b2 % 64) as u8
}

// The three bytes recovered from four sextets.
pub open spec fn r0(v0: u8, v1: u8) -> u8 {
    (v0 * 4 + v1 / 16) as u8
}

pub open spec fn r1(v1: u8, v2: u8) -> u8 {
    ((v1 % 16) * 16 + v2 / 4) as u8
}

pub open spec fn r2(v2: u8, v3: u8) -> u8 {
    ((v2 % 4) * 64 + v3) as u8
}

/// Base64 spelling of a byte sequence, with padding.
pub open spec fn b64_of(s: Seq<u8>) -> Seq<u8>
    decreases s.len(),
{
    if s.len() == 0 {
        Seq::empty()
    } else if s.len() == 1 {
        seq![sext(v0(s[0])), sext(v1(s[0], 0)), 0x3d, 0x3d]
    } else if s.len() == 2 {
        seq![sext(v0(s[0])), sext(v1(s[0], s[1])), sext(v2(s[1], 0)), 0x3d]
    } else {
        seq![
            sext(v0(s[0])),
            sext(v1(s[0], s[1])),
            sext(v2(s[1], s[2])),
            sext(v3(s[2])),
        ] + b64_of(s.skip(3))
    }
}

/// Strict parse of one full group (no padding allowed).
pub open spec fn parse_full(c0: u8, c1: u8, c2: u8, c3: u8) -> Option<Seq<u8>> {
    match (sext_val(c0), sext_val(c1), sext_val(c2), sext_val(c3)) {
        (Some(v0), Some(v1), Some(v2), Some(v3)) => Some(seq![r0(v0, v1), r1(v1, v2), r2(v2, v3)]),
        _ => None,
    }
}

/// Strict parse of the final group, where padding may stand. Unused low bits
/// of the last data sextet must be zero (canonical form only).
pub open spec fn parse_last(c0: u8, c1: u8, c2: u8, c3: u8) -> Option<Seq<u8>> {
    if c3 == 0x3d {
        if c2 == 0x3d {
            match (sext_val(c0), sext_val(c1)) {
                (Some(v0), Some(v1)) => if v1 % 16 == 0 {
                    Some(seq![r0(v0, v1)])
                } else {
                    None
                },
                _ => None,
            }
        } else {
            match (sext_val(c0), sext_val(c1), sext_val(c2)) {
                (Some(v0), Some(v1), Some(v2)) => if v2 % 4 == 0 {
                    Some(seq![r0(v0, v1), r1(v1, v2)])
                } else {
                    None
                },
                _ => None,
            }
        }
    } else {
        parse_full(c0, c1, c2, c3)
    }
}

/// Bytes spelled by a base64 string, or nothing if it is not canonical
/// base64.
pub open spec fn b64_parse(s: Seq<u8>) -> Option<Seq<u8>>
    decreases s.len(),
{
    if s.len() == 0 {
        Some(Seq::empty())
    } else if s.len() % 4 != 0 {
        None
    } else if s.len() == 4 {
        parse_last(s[0], s[1], s[2], s[3])
    } else {
        match (parse_full(s[0], s[1], s[2], s[3]), b64_parse(s.skip(4))) {
            (Some(g), Some(rest)) => Some(g + rest),
            _ => None,
        }
    }
}

proof fn lemma_sext_val(v: u8)
    requires
        v < 64,
    ensures
        sext_val(sext(v)) == Some(v),
        sext(v) != 0x3d,
        sext(v) < 0x80,
{
}

proof fn lemma_recover(b0: u8, b1: u8, b2: u8)
    ensures
        v0(b0) < 64,
        v1(b0, b1) < 64,
        v2(b1, b2) < 64,
        v3(b2) < 64,
        r0(v0(b0), v1(b0, b1)) == b0,
        r1(v1(b0, b1), v2(b1, b2)) == b1,
        r2(v2(b1, b2), v3(b2)) == b2,
        b1 == 0 ==> v1(b0, b1) % 16 == 0,
        b2 == 0 ==> v2(b1, b2) % 4 == 0,
{
    assert((b0 / 4) * 4 + ((b0 % 4) * 16 + b1 / 16) / 16 == b0) by (bit_vector);
    assert((((b0 % 4) * 16 + b1 / 16) % 16) * 16 + ((b1 % 16) * 4 + b2 / 64) / 4 == b1)
        by (bit_vector);
    assert((((b1 % 16) * 4 + b2 / 64) % 4) * 64 + (b2 % 64) == b2) by (bit_vector);
}

/// The length of a base64 spelling: a multiple of four, and at least four
/// for a non-empty input.
pub proof fn lemma_b64_of_len(s: Seq<u8>)
    ensures
        b64_of(s).len() % 4 == 0,
        s.len() > 0 ==> b64_of(s).len() >= 4,
    decreases s.len(),
{
    if s.len() > 2 {
        lemma_b64_of_len(s.skip(3));
    }
}

/// Base64 spells only ASCII bytes.
pub proof fn lemma_b64_ascii(s: Seq<u8>)
    ensures
        crate::text::all_ascii(b64_of(s)),
    decreases s.len(),
{
    if s.len() == 1 {
        lemma_sext_val(v0(s[0]));
        lemma_sext_val(v1(s[0], 0));
    } else if s.len() == 2 {
        lemma_sext_val(v0(s[0]));
        lemma_sext_val(v1(s[0], s[1]));
        lemma_sext_val(v2(s[1], 0));
    } else if s.len() > 2 {
        lemma_sext_val(v0(s[0]));
        lemma_sext_val(v1(s[0], s[1]));
        lemma_sext_val(v2(s[1], s[2]));
        lemma_sext_val(v3(s[2]));
        lemma_b64_ascii(s.skip(3));
    }
}

/// Round trip: strict decoding undoes encoding, for every byte sequence.
#[verifier::rlimit(100)]
pub proof fn lemma_b64_round_trip(s: Seq<u8>)
    ensures
        b64_parse(b64_of(s)) == Some(s),
    decreases s.len(),
{
    if s.len() == 0 {
        assert(s =~= Seq::<u8>::empty());
    } else if s.len() == 1 {
        lemma_recover(s[0], 0, 0);
        lemma_sext_val(v0(s[0]));
        lemma_sext_val(v1(s[0], 0));
        assert(seq![r0(v0(s[0]), v1(s[0], 0))] =~= s);
    } else if s.len() == 2 {
        lemma_recover(s[0], s[1], 0);
        lemma_sext_val(v0(s[0]));
        lemma_sext_val(v1(s[0], s[1]));
        lemma_sext_val(v2(s[1], 0));
        assert(seq![r0(v0(s[0]), v1(s[0], s[1])), r1(v1(s[0], s[1]), v2(s[1], 0))] =~= s);
    } else {
        lemma_recover(s[0], s[1], s[2]);
        lemma_sext_val(v0(s[0]));
        lemma_sext_val(v1(s[0], s[1]));
        lemma_sext_val(v2(s[1], s[2]));
        lemma_sext_val(v3(s[2]));
        lemma_b64_round_trip(s.skip(3));
        lemma_b64_of_len(s.skip(3));
        let g = seq![
            sext(v0(s[0])),
            sext(v1(s[0], s[1])),
            sext(v2(s[1], s[2])),
            sext(v3(s[2])),
        ];
        let e = b64_of(s);
        assert(e == g + b64_of(s.skip(3)));
        if s.len() == 3 {
            assert(b64_of(s.skip(3)) =~= Seq::<u8>::empty());
            assert(e =~= g);
            assert(seq![
                r0(v0(s[0]), v1(s[0], s[1])),
                r1(v1(s[0], s[1]), v2(s[1], s[2])),
                r2(v2(s[1], s[2]), v3(s[2])),
            ] =~= s);
        } else {
            assert(e.len() >= 8 && e.len() % 4 == 0);
            assert(e[0] == g[0] && e[1] == g[1] && e[2] == g[2] && e[3] == g[3]);
            assert(e.skip(4) =~= b64_of(s.skip(3)));
            assert(seq![
                r0(v0(s[0]), v1(s[0], s[1])),
                r1(v1(s[0], s[1]), v2(s[1], s[2])),
                r2(v2(s[1], s[2]), v3(s[2])),
            ] + s.skip(3) =~= s);
        }
    }
}

fn sext_exec(v: u8) -> (r: u8)
    requires
        v < 64,
    ensures
        r == sext(v),
{
    if v < 26 {
        0x41 + v
    } else if v < 52 {
        0x61 + (v - 26)
    } else if v < 62 {
        0x30 + (v - 52)
    } else if v == 62 {
        0x2b
    } else {
        0x2f
    }
}

fn sext_val_exec(c: u8) -> (r: Option<u8>)
    ensures
        r == sext_val(c),
{
    if 0x41 <= c && c <= 0x5a {
        Some(c - 0x41)
    } else if 0x61 <= c && c <= 0x7a {
        Some(c - 0x61 + 26)
    } else if 0x30 <= c && c <= 0x39 {
        Some(c - 0x30 + 52)
    } else if c == 0x2b {
        Some(62)
    } else if c == 0x2f {
        Some(63)
    } else {
        None
    }
}

/// Encodes bytes as canonical base64 with padding.
pub fn encode(s: &[u8]) -> (r: Vec<u8>)
    ensures
        r@ == b64_of(s@),
    decreases s@.len(),
{
    let mut r: Vec<u8> = Vec::new();
    if s.len() == 0 {
        r
    } else if s.len() == 1 {
        let b0 = s[0];
        r.push(sext_exec(b0 / 4));
        r.push(sext_exec((b0 % 4) * 16));
        r.push(0x3d);
        r.push(0x3d);
        assert(r@ =~= b64_of(s@));
        r
    } else if s.len() == 2 {
        let b0 = s[0];
        let b1 = s[1];
        r.push(sext_exec(b0 / 4));
        r.push(sext_exec((b0 % 4) * 16 + b1 / 16));
        r.push(sext_exec((b1 % 16) * 4));
        r.push(0x3d);
        assert(r@ =~= b64_of(s@));
        r
    } else {
        let b0 = s[0];
        let b1 = s[1];
        let b2 = s[2];
        r.push(sext_exec(b0 / 4));
        r.push(sext_exec((b0 % 4) * 16 + b1 / 16));
        r.push(sext_exec((b1 % 16) * 4 + b2 / 64));
        r.push(sext_exec(b2 % 64));
        let mut rest = encode(vstd::slice::slice_subrange(s, 3, s.len()));
        r.append(&mut rest);
        assert(s@.skip(3) == s@.subrange(3, s@.len() as int));
        assert(r@ =~= b64_of(s@));
        r
    }
}

fn parse_full_exec(c0: u8, c1: u8, c2: u8, c3: u8) -> (r: Option<Vec<u8>>)
    ensures
        match r {
            Some(v) => parse_full(c0, c1, c2, c3) == Some(v@),
            None => parse_full(c0, c1, c2, c3) is None,
        },
{
    match (sext_val_exec(c0), sext_val_exec(c1), sext_val_exec(c2), sext_val_exec(c3)) {
        (Some(v0), Some(v1), Some(v2), Some(v3)) => {
            let mut g: Vec<u8> = Vec::new();
            g.push(v0 * 4 + v1 / 16);
            g.push((v1 % 16) * 16 + v2 / 4);
            g.push((v2 % 4) * 64 + v3);
            assert(g@ =~= parse_full(c0, c1, c2, c3).unwrap());
            Some(g)
        },
        _ => None,
    }
}

fn parse_last_exec(c0: u8, c1: u8, c2: u8, c3: u8) -> (r: Option<Vec<u8>>)
    ensures
        match r {
            Some(v) => parse_last(c0, c1, c2, c3) == Some(v@),
            None => parse_last(c0, c1, c2, c3) is None,
        },
{
    if c3 == 0x3d {
        if c2 == 0x3d {
            match (sext_val_exec(c0), sext_val_exec(c1)) {
                (Some(v0), Some(v1)) => {
                    if v1 % 16 == 0 {
                        let mut g: Vec<u8> = Vec::new();
                        g.push(v0 * 4 + v1 / 16);
                        assert(g@ =~= parse_last(c0, c1, c2, c3).unwrap());
                        Some(g)
                    } else {
                        None
                    }
                },
                _ => None,
            }
        } else {
            match (sext_val_exec(c0), sext_val_exec(c1), sext_val_exec(c2)) {
                (Some(v0), Some(v1), Some(v2)) => {
                    if v2 % 4 == 0 {
                        let mut g: Vec<u8> = Vec::new();
                        g.push(v0 * 4 + v1 / 16);
                        g.push((v1 % 16) * 16 + v2 / 4);
                        assert(g@ =~= parse_last(c0, c1, c2, c3).unwrap());
                        Some(g)
                    } else {
                        None
                    }
                },
                _ => None,
            }
        }
    } else {
        parse_full_exec(c0, c1, c2, c3)
    }
}

/// Decodes canonical base64 with padding; rejects anything else.
pub fn decode(s: &[u8]) -> (r: Option<Vec<u8>>)
    ensures
        match r {
            Some(v) => b64_parse(s@) == Some(v@),
            None => b64_parse(s@) is None,
        },
    decreases s@.len(),
{
    if s.len() == 0 {
        Some(Vec::new())
    } else if s.len() % 4 != 0 {
        None
    } else if s.len() == 4 {
        parse_last_exec(s[0], s[1], s[2], s[3])
    } else {
        let g = parse_full_exec(s[0], s[1], s[2], s[3]);
        let rest = decode(vstd::slice::slice_subrange(s, 4, s.len()));
        assert(s@.skip(4) == s@.subrange(4, s@.len() as int));
        match (g, rest) {
            (Some(g), Some(rest)) => {
                let mut out = g;
                let mut tail = rest;
                out.append(&mut tail);
                Some(out)
            },
            _ => None,
        }
    }
}

} // verus!
