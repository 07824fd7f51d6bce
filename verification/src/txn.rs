//! The transaction records and their canonical byte layout. An
//! `UnsignedTxn` is assembled first and frozen; signing consumes it, so a
//! signed transaction can never be altered and re-serialized differently
//! from what was signed. The layout is fixed-width and deterministic:
//! little-endian integers and raw 32-byte keys.

use vstd::prelude::*;
use crate::Error;
use crate::crypto;
use crate::keys::PUBLIC_KEY_LEN;

verus! {

/// Envelope tag of the token-burn transaction kind.
pub const TOKEN_BURN_TAG: u8 = 1;

/// Little-endian bytes of a 64-bit integer.
pub open spec fn u64_le(v: u64) -> Seq<u8> {
    seq![
        (v % 0x100) as u8,
        ((v / 0x100) % 0x100) as u8,
        ((v / 0x10000) % 0x100) as u8,
        ((v / 0x1000000) % 0x100) as u8,
        ((v / 0x100000000) % 0x100) as u8,
        ((v / 0x10000000000) % 0x100) as u8,
        ((v / 0x1000000000000) % 0x100) as u8,
        ((v / 0x100000000000000) % 0x100) as u8,
    ]
}

/// The integer spelled by eight little-endian bytes.
pub open spec fn u64_from_le(s: Seq<u8>) -> u64
    recommends
        s.len() == 8,
{
    (s[0] + s[1] * 0x100 + s[2] * 0x10000 + s[3] * 0x1000000 + s[4] * 0x100000000 + s[5]
        * 0x10000000000 + s[6] * 0x1000000000000 + s[7] * 0x100000000000000) as u64
}

/// Round trip: the little-endian bytes of an integer spell that integer.
pub proof fn lemma_u64_le_round_trip(v: u64)
    ensures
        u64_from_le(u64_le(v)) == v,
{
    assert(v % 0x100 + ((v / 0x100) % 0x100) * 0x100 + ((v / 0x10000) % 0x100) * 0x10000 + ((v
        / 0x1000000) % 0x100) * 0x1000000 + ((v / 0x100000000) % 0x100) * 0x100000000 + ((v
        / 0x10000000000) % 0x100) * 0x10000000000 + ((v / 0x1000000000000) % 0x100)
        * 0x1000000000000 + ((v / 0x100000000000000) % 0x100) * 0x100000000000000 == v)
        by (bit_vector);
}

/// Writes a 64-bit integer in little-endian order.
pub fn u64_le_exec(v: u64) -> (r: Vec<u8>)
    ensures
        r@ == u64_le(v),
{
    let mut r: Vec<u8> = Vec::new();
    r.push((v % 0x100) as u8);
    r.push(((v / 0x100) % 0x100) as u8);
    r.push(((v / 0x10000) % 0x100) as u8);
    r.push(((v / 0x1000000) % 0x100) as u8);
    r.push(((v / 0x100000000) % 0x100) as u8);
    r.push(((v / 0x10000000000) % 0x100) as u8);
    r.push(((v / 0x1000000000000) % 0x100) as u8);
    r.push(((v / 0x100000000000000) % 0x100) as u8);
    assert(r@ =~= u64_le(v));
    r
}

/// Reads a 64-bit integer from eight little-endian bytes.
pub fn u64_from_le_exec(s: &[u8]) -> (r: u64)
    requires
        s@.len() == 8,
    ensures
        r == u64_from_le(s@),
{
    s[0] as u64 + s[1] as u64 * 0x100 + s[2] as u64 * 0x10000 + s[3] as u64 * 0x1000000
        + s[4] as u64 * 0x100000000 + s[5] as u64 * 0x10000000000 + s[6] as u64 * 0x1000000000000
        + s[7] as u64 * 0x100000000000000
}

/// Canonical serialization of the unsigned fields: every field in a fixed
/// position, the signature nowhere.
pub open spec fn ser_fields(
    fee: u64,
    payee: Seq<u8>,
    amount: u64,
    payer: Seq<u8>,
    memo: u64,
    nonce: u64,
) -> Seq<u8> {
    u64_le(fee) + payee + u64_le(amount) + payer + u64_le(memo) + u64_le(nonce)
}

/// The unsigned token-burn record. Every field must be final before
/// signing; `sign` consumes the record so nothing can change afterwards.
#[derive(Debug)]
pub struct UnsignedTxn {
    pub fee: u64,
    pub payee: Vec<u8>,
    pub amount: u64,
    pub payer: Vec<u8>,
    pub memo: u64,
    pub nonce: u64,
}

impl UnsignedTxn {
    /// Both key fields hold exactly 32 bytes.
    pub open spec fn wf(&self) -> bool {
        self.payee@.len() == PUBLIC_KEY_LEN && self.payer@.len() == PUBLIC_KEY_LEN
    }

    /// The record's canonical bytes, the exact payload that is signed.
    pub open spec fn ser_spec(&self) -> Seq<u8> {
        ser_fields(self.fee, self.payee@, self.amount, self.payer@, self.memo, self.nonce)
    }

    /// Serializes the record canonically.
    pub fn serialize(&self) -> (r: Vec<u8>)
        ensures
            r@ == self.ser_spec(),
    {
        let mut r = u64_le_exec(self.fee);
        r.extend_from_slice(self.payee.as_slice());
        let mut part = u64_le_exec(self.amount);
        r.append(&mut part);
        r.extend_from_slice(self.payer.as_slice());
        let mut part = u64_le_exec(self.memo);
        r.append(&mut part);
        let mut part = u64_le_exec(self.nonce);
        r.append(&mut part);
        assert(r@ =~= self.ser_spec());
        r
    }

    /// Checks a signature over this record's canonical bytes against a
    /// public key: any verifier can reproduce the byte-identical
    /// serialization independently and check a claimed signature.
    pub fn verify_signature(&self, pk: &[u8], sig: &[u8]) -> (r: bool)
        ensures
            r == crypto::sig_ok(pk@, self.ser_spec(), sig@),
    {
        let msg = self.serialize();
        crypto::verify_bytes(pk, msg.as_slice(), sig)
    }

    /// Signs the frozen record over its canonical bytes, consuming it: the
    /// signature is produced exactly once, and the signed value it moves
    /// into cannot be altered. Fails only on malformed key material.
    pub fn sign(self, seed: &[u8]) -> (r: Result<SignedTxn, Error>)
        ensures
            match r {
                Ok(st) => {
                    &&& seed@.len() == 32
                    &&& st.txn_spec() == self
                    &&& st.sig_spec() == crypto::sig_of(seed@, self.ser_spec())
                    &&& crypto::sig_ok(crypto::pk_of(seed@), self.ser_spec(), st.sig_spec())
                    &&& st.sig_spec().len() == 64
                },
                Err(e) => e == Error::Signing && seed@.len() != 32,
            },
    {
        if seed.len() != 32 {
            return Err(Error::Signing);
        }
        let msg = self.serialize();
        let signature = crypto::sign_bytes(seed, msg.as_slice());
        Ok(SignedTxn { txn: self, signature })
    }
}

/// A signed transaction: the frozen unsigned record plus its signature.
/// The fields are private, so no caller can mutate a record after it was
/// signed.
#[derive(Debug)]
pub struct SignedTxn {
    txn: UnsignedTxn,
    signature: Vec<u8>,
}

impl SignedTxn {
    /// The unsigned record exactly as it was at sign time.
    pub closed spec fn txn_spec(&self) -> UnsignedTxn {
        self.txn
    }

    /// The signature bytes.
    pub closed spec fn sig_spec(&self) -> Seq<u8> {
        self.signature@
    }

    /// Read access to the frozen record.
    pub fn txn(&self) -> (r: &UnsignedTxn)
        ensures
            *r == self.txn_spec(),
    {
        &self.txn
    }

    /// Read access to the signature.
    pub fn signature(&self) -> (r: &Vec<u8>)
        ensures
            r@ == self.sig_spec(),
    {
        &self.signature
    }

    /// Re-serializes the unsigned record (the signature is excluded by
    /// construction) and checks the signature against a public key. For a
    /// key matching the signing seed this succeeds by `sign`'s contract.
    pub fn verify(&self, pk: &[u8]) -> (r: bool)
        ensures
            r == crypto::sig_ok(pk@, self.txn_spec().ser_spec(), self.sig_spec()),
    {
        let msg = self.txn.serialize();
        crypto::verify_bytes(pk, msg.as_slice(), self.signature.as_slice())
    }

    /// Wraps the signed transaction into the submission envelope, selecting
    /// this transaction kind's variant. Pure and infallible.
    pub fn in_envelope(self) -> (r: Envelope)
        ensures
            r == Envelope::TokenBurn(self),
    {
        Envelope::TokenBurn(self)
    }
}

/// The wire container: a closed union over the transaction kinds, holding
/// exactly one signed transaction.
#[derive(Debug)]
pub enum Envelope {
    TokenBurn(SignedTxn),
}

impl Envelope {
    /// The envelope's stable wire bytes: the kind's tag, the canonical
    /// unsigned bytes, then the signature.
    pub open spec fn ser_spec(&self) -> Seq<u8> {
        match self {
            Envelope::TokenBurn(st) => seq![TOKEN_BURN_TAG] + st.txn_spec().ser_spec()
                + st.sig_spec(),
        }
    }

    /// The signed transaction inside, as a value for contracts.
    pub open spec fn signed_spec(&self) -> SignedTxn {
        match self {
            Envelope::TokenBurn(st) => *st,
        }
    }

    /// The signed transaction inside.
    pub fn txn(&self) -> (r: &SignedTxn)
        ensures
            *r == self.signed_spec(),
    {
        match self {
            Envelope::TokenBurn(st) => st,
        }
    }

    /// Serializes the envelope to its wire bytes. The result is the same
    /// whether or not the envelope is submitted.
    pub fn serialize(&self) -> (r: Vec<u8>)
        ensures
            r@ == self.ser_spec(),
    {
        match self {
            Envelope::TokenBurn(st) => {
                let mut r: Vec<u8> = Vec::new();
                r.push(TOKEN_BURN_TAG);
                let mut body = st.txn.serialize();
                r.append(&mut body);
                r.extend_from_slice(st.signature.as_slice());
                assert(r@ =~= self.ser_spec());
                r
            },
        }
    }
}

/// The lifecycle state a node reports for an accepted transaction.
#[derive(Debug, Clone, Copy, PartialEq, Eq, Structural)]
pub enum TxnState {
    Pending,
    Failed,
}

/// The handle a node returns when it accepts a transaction: created only by
/// submission, absent on a dry run.
#[derive(Debug, Clone)]
pub struct PendingStatus {
    pub hash: String,
    pub state: TxnState,
}

} // verus!
