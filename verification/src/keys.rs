//! Public keys as validated 32-byte values, spelled in lower-case
//! hexadecimal for display and argument parsing. A `PublicKey` can only be
//! constructed well-formed, so every signature and serialization step can
//! rely on its length.

use vstd::prelude::*;
use vstd::string::StringSliceAdditionalSpecFns;
use crate::Error;
use crate::text;

verus! {

/// A validated public key: exactly 32 bytes.
#[derive(Debug, Clone)]
pub struct PublicKey {
    bytes: Vec<u8>,
}

/// The byte length every public key has.
pub const PUBLIC_KEY_LEN: usize = 32;

impl View for PublicKey {
    type V = Seq<u8>;

    closed spec fn view(&self) -> Seq<u8> {
        self.bytes@
    }
}

impl PublicKey {
    /// A public key is well formed when it holds exactly 32 bytes; the
    /// constructors admit nothing else.
    pub open spec fn wf(&self) -> bool {
        self@.len() == PUBLIC_KEY_LEN
    }

    /// Validates raw bytes as a public key.
    pub fn from_bytes(b: &[u8]) -> (r: Result<PublicKey, Error>)
        ensures
            match r {
                Ok(k) => b@.len() == PUBLIC_KEY_LEN && k@ == b@ && k.wf(),
                Err(e) => e == Error::InvalidPublicKey && b@.len() != PUBLIC_KEY_LEN,
            },
    {
        if b.len() == PUBLIC_KEY_LEN {
            let mut bytes: Vec<u8> = Vec::new();
            bytes.extend_from_slice(b);
            Ok(PublicKey { bytes })
        } else {
            Err(Error::InvalidPublicKey)
        }
    }

    /// Parses the hexadecimal spelling of a public key: 64 lower-case hex
    /// digits.
    pub fn from_text(s: &str) -> (r: Result<PublicKey, Error>)
        ensures
            match r {
                Ok(k) => k.wf() && text::hex_parse(s.spec_bytes()) == Some(k@),
                Err(e) => e == Error::InvalidPublicKey && (match text::hex_parse(s.spec_bytes()) {
                    Some(b) => b.len() != PUBLIC_KEY_LEN,
                    None => true,
                }),
            },
    {
        match text::hex_decode(s.as_bytes()) {
            Some(b) => {
                if b.len() == PUBLIC_KEY_LEN {
                    Ok(PublicKey { bytes: b })
                } else {
                    Err(Error::InvalidPublicKey)
                }
            },
            None => Err(Error::InvalidPublicKey),
        }
    }

    /// Derives the payer's public key from a 32-byte signing seed, the key
    /// a signature made with that seed verifies under.
    pub fn from_seed(seed: &[u8]) -> (r: Result<PublicKey, Error>)
        ensures
            match r {
                Ok(k) => seed@.len() == 32 && k@ == crate::crypto::pk_of(seed@) && k.wf(),
                Err(e) => e == Error::Signing && seed@.len() != 32,
            },
    {
        if seed.len() != 32 {
            return Err(Error::Signing);
        }
        let bytes = crate::crypto::derive_public_key(seed);
        Ok(PublicKey { bytes })
    }

    /// The key's bytes, as a fresh vector.
    pub fn to_vec(&self) -> (r: Vec<u8>)
        ensures
            r@ == self@,
    {
        let mut r: Vec<u8> = Vec::new();
        r.extend_from_slice(self.bytes.as_slice());
        r
    }

    /// The hexadecimal spelling of the key.
    pub fn to_text(&self) -> (r: String)
        ensures
            r@ == text::ascii_chars(text::hex_of(self@)),
    {
        let h = text::hex_encode(self.bytes.as_slice());
        proof {
            text::lemma_hex_ascii(self@);
        }
        text::ascii_to_string(h)
    }
}

/// Round trip: the hexadecimal spelling of any byte sequence parses back to
/// the same bytes, so a displayed key re-reads to the key itself.
pub proof fn lemma_hex_round_trip(s: Seq<u8>)
    ensures
        text::hex_parse(text::hex_of(s)) == Some(s),
    decreases s.len(),
{
    if s.len() == 0 {
        assert(s =~= Seq::<u8>::empty());
    } else {
        lemma_hex_round_trip(s.skip(1));
        let h = text::hex_of(s);
        assert(h == seq![text::hex_digit(s[0] / 16), text::hex_digit(s[0] % 16)] + text::hex_of(
            s.skip(1),
        ));
        assert(text::hex_val(text::hex_digit(s[0] / 16)) == Some((s[0] / 16) as u8));
        assert(text::hex_val(text::hex_digit(s[0] % 16)) == Some((s[0] % 16) as u8));
        assert(h.skip(2) =~= text::hex_of(s.skip(1)));
        assert(seq![(((s[0] / 16) * 16 + s[0] % 16)) as u8] + s.skip(1) =~= s);
    }
}

} // verus!
