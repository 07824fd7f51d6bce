//! A verified transaction pipeline for a token-burn wallet command: it
//! resolves a nonce and a fee, assembles a canonical unsigned record, signs
//! it, wraps it in a submission envelope, and renders the result as a table
//! or as JSON. Network access and key-material loading stay outside; the
//! library works on plain values and states what each step returns.

use vstd::prelude::*;

pub mod b64;
pub mod burn;
pub mod crypto;
pub mod fee;
pub mod keys;
pub mod memo;
pub mod present;
pub mod text;
pub mod txn;

verus! {

/// Everything that can go wrong in the pipeline, one variant per failure
/// source. Each function's contract says exactly when each variant comes.
#[derive(Debug, Clone, Copy, PartialEq, Eq, Structural)]
pub enum Error {
    /// A public key was not a well-formed key encoding.
    InvalidPublicKey,
    /// A memo string was not valid base64 or did not fit eight bytes.
    MemoEncoding,
    /// The payer account could not be fetched for nonce resolution.
    AccountLookup,
    /// The account's speculative nonce leaves no room for a next nonce.
    NonceOverflow,
    /// The fee schedule could not be fetched.
    FeeSchedule,
    /// The computed fee does not fit the fee field.
    FeeOverflow,
    /// The signing key material was malformed.
    Signing,
    /// The node rejected the envelope or was unreachable.
    Submission,
}

} // verus!
