//! The memo field: an opaque value carried in the transaction as a 64-bit
//! integer and exchanged with the user as a base64 string of its
//! little-endian bytes. Anything over eight bytes does not fit the width
//! and is rejected.

use vstd::prelude::*;
use vstd::string::StringSliceAdditionalSpecFns;
use crate::Error;
use crate::b64;
use crate::text;
use crate::txn::{u64_le, u64_from_le};

verus! {

/// A memo as the transaction carries it.
#[derive(Clone, Copy, PartialEq, Eq, Structural, Debug)]
pub struct Memo(pub u64);

/// Up to eight little-endian bytes padded with zeros to the full width.
pub open spec fn pad8(s: Seq<u8>) -> Seq<u8>
    recommends
        s.len() <= 8,
{
    s + Seq::new((8 - s.len()) as nat, |i: int| 0u8)
}

/// The base64 spelling of a memo.
pub open spec fn memo_text(m: u64) -> Seq<u8> {
    b64::b64_of(u64_le(m))
}

impl Memo {
    /// Parses a base64 memo string: it must be canonical base64 of at most
    /// eight bytes, read little-endian with zero padding. The empty string
    /// is the zero memo.
    pub fn from_b64(s: &str) -> (r: Result<Memo, Error>)
        ensures
            match r {
                Ok(m) => (match b64::b64_parse(s.spec_bytes()) {
                    Some(b) => b.len() <= 8 && m.0 == u64_from_le(pad8(b)),
                    None => false,
                }),
                Err(e) => e == Error::MemoEncoding && (match b64::b64_parse(s.spec_bytes()) {
                    Some(b) => b.len() > 8,
                    None => true,
                }),
            },
    {
        match b64::decode(s.as_bytes()) {
            Some(bytes) => {
                if bytes.len() > 8 {
                    Err(Error::MemoEncoding)
                } else {
                    let mut padded = bytes;
                    while padded.len() < 8
                        invariant
                            padded@.len() <= 8,
                            pad8(padded@) == pad8(b64::b64_parse(s.spec_bytes()).unwrap()),
                        decreases 8 - padded@.len(),
                    {
                        padded.push(0);
                        assert(pad8(padded@) =~= pad8(padded@.take(padded@.len() - 1)));
                    }
                    assert(padded@ =~= pad8(padded@));
                    Ok(Memo(u64_from_le_slice(&padded)))
                }
            },
            None => Err(Error::MemoEncoding),
        }
    }

    /// The base64 spelling of the memo's eight little-endian bytes.
    pub fn to_b64(&self) -> (r: String)
        ensures
            r@ == text::ascii_chars(memo_text(self.0)),
    {
        let bytes = crate::txn::u64_le_exec(self.0);
        let enc = b64::encode(bytes.as_slice());
        proof {
            b64::lemma_b64_ascii(u64_le(self.0));
        }
        text::ascii_to_string(enc)
    }
}

fn u64_from_le_slice(v: &Vec<u8>) -> (r: u64)
    requires
        v@.len() == 8,
    ensures
        r == u64_from_le(v@),
{
    crate::txn::u64_from_le_exec(v.as_slice())
}

/// Round trip: any memo's base64 spelling parses back to the same memo.
pub proof fn lemma_memo_round_trip(m: u64)
    ensures
        b64::b64_parse(memo_text(m)) == Some(u64_le(m)),
        u64_from_le(pad8(u64_le(m))) == m,
{
    b64::lemma_b64_round_trip(u64_le(m));
    assert(pad8(u64_le(m)) =~= u64_le(m));
    crate::txn::lemma_u64_le_round_trip(m);
}

} // verus!
