//! The burn command's pipeline: resolve a nonce, resolve a fee, assemble
//! the frozen unsigned record, sign it, and wrap it for submission. The
//! contracts pin the sequencing that signing demands: the nonce is final
//! before the fee is priced, the fee is priced over the record with a zero
//! fee field, and an override of either skips the corresponding network
//! fetch entirely.

use vstd::prelude::*;
use crate::Error;
use crate::crypto;
use crate::fee::{fee_spec, FeeSchedule};
use crate::keys::PublicKey;
use crate::memo::Memo;
use crate::txn::{ser_fields, Envelope, UnsignedTxn};

verus! {

/// The burn command's inputs: recipient, amount in smallest units, memo,
/// optional nonce and fee overrides, and whether to submit.
pub struct Cmd {
    pub payee: PublicKey,
    pub memo: Memo,
    pub amount: u64,
    pub nonce: Option<u64>,
    pub fee: Option<u64>,
    pub commit: bool,
}

impl Cmd {
    /// The nonce the pipeline uses: the override unchanged when one is
    /// supplied, else one past the account's speculative nonce; an error
    /// when the account was not fetched or leaves no room.
    pub open spec fn resolved_nonce_spec(&self, speculative_nonce: Option<u64>) -> Result<
        u64,
        Error,
    > {
        match self.nonce {
            Some(n) => Ok(n),
            None => match speculative_nonce {
                Some(s) => if s < u64::MAX {
                    Ok((s + 1) as u64)
                } else {
                    Err(Error::NonceOverflow)
                },
                None => Err(Error::AccountLookup),
            },
        }
    }

    /// True exactly when resolving the nonce needs the payer account: no
    /// override was supplied. With an override, no lookup happens.
    pub fn needs_account_lookup(&self) -> (b: bool)
        ensures
            b == (self.nonce is None),
    {
        self.nonce.is_none()
    }

    /// True exactly when resolving the fee needs the fee schedule: no
    /// override was supplied. With an override, no fetch happens.
    pub fn needs_fee_schedule(&self) -> (b: bool)
        ensures
            b == (self.fee is None),
    {
        self.fee.is_none()
    }

    /// True exactly when the caller asked to submit; on false nothing is
    /// transmitted and the pending status stays absent.
    pub fn should_submit(&self) -> (b: bool)
        ensures
            b == self.commit,
    {
        self.commit
    }

    /// What `build` promises of a record it returns: every field pinned,
    /// the nonce as resolved, and the fee either the override unchanged or
    /// the price of the record's canonical bytes with the final nonce in
    /// place and the fee field still zero.
    pub open spec fn build_ok_spec(
        &self,
        payer: PublicKey,
        speculative_nonce: Option<u64>,
        fees: Option<FeeSchedule>,
        t: UnsignedTxn,
    ) -> bool {
        &&& t.wf()
        &&& t.payee@ == self.payee@
        &&& t.payer@ == payer@
        &&& t.amount == self.amount
        &&& t.memo == self.memo.0
        &&& self.resolved_nonce_spec(speculative_nonce) == Ok::<u64, Error>(t.nonce)
        &&& match self.fee {
            Some(f) => t.fee == f,
            None => fees is Some && t.fee == fee_spec(
                ser_fields(0, self.payee@, self.amount, payer@, self.memo.0, t.nonce).len(),
                fees.unwrap().dc_per_byte,
            ),
        }
    }

    /// When `build` fails, and with which error: nonce resolution first,
    /// then a missing fee schedule, then a fee that does not fit.
    pub open spec fn build_err_spec(
        &self,
        payer: PublicKey,
        speculative_nonce: Option<u64>,
        fees: Option<FeeSchedule>,
        e: Error,
    ) -> bool {
        if self.resolved_nonce_spec(speculative_nonce) is Err {
            e == self.resolved_nonce_spec(speculative_nonce).unwrap_err()
        } else if self.fee is None && fees is None {
            e == Error::FeeSchedule
        } else {
            &&& self.fee is None
            &&& fees is Some
            &&& e == Error::FeeOverflow
            &&& fee_spec(
                ser_fields(
                    0,
                    self.payee@,
                    self.amount,
                    payer@,
                    self.memo.0,
                    self.resolved_nonce_spec(speculative_nonce).unwrap(),
                ).len(),
                fees.unwrap().dc_per_byte,
            ) > u64::MAX
        }
    }

    /// Assembles the frozen unsigned record. `speculative_nonce` is the
    /// fetched account value (absent when the lookup was skipped or
    /// failed), `fees` the fetched schedule (likewise). The contract pins
    /// every field: the nonce override is used unchanged when supplied, the
    /// fee override likewise; otherwise the fee prices the record's
    /// canonical bytes with the final nonce in place and the fee still
    /// zero. Each error names exactly the stage that failed.
    pub fn build(
        &self,
        payer: &PublicKey,
        speculative_nonce: Option<u64>,
        fees: Option<FeeSchedule>,
    ) -> (r: Result<UnsignedTxn, Error>)
        requires
            self.payee.wf(),
            payer.wf(),
        ensures
            match r {
                Ok(t) => self.build_ok_spec(*payer, speculative_nonce, fees, t),
                Err(e) => self.build_err_spec(*payer, speculative_nonce, fees, e),
            },
    {
        let nonce: u64 = match self.nonce {
            Some(n) => n,
            None => match speculative_nonce {
                Some(s) => {
                    if s < u64::MAX {
                        s + 1
                    } else {
                        return Err(Error::NonceOverflow);
                    }
                },
                None => {
                    return Err(Error::AccountLookup);
                },
            },
        };
        let mut txn = UnsignedTxn {
            fee: 0,
            payee: self.payee.to_vec(),
            amount: self.amount,
            payer: payer.to_vec(),
            memo: self.memo.0,
            nonce,
        };
        txn.fee = match self.fee {
            Some(f) => f,
            None => match fees {
                Some(schedule) => match txn.txn_fee(&schedule) {
                    Some(f) => f,
                    None => {
                        return Err(Error::FeeOverflow);
                    },
                },
                None => {
                    return Err(Error::FeeSchedule);
                },
            },
        };
        Ok(txn)
    }

    /// The whole construct-and-sign core in one step: builds the frozen
    /// record, signs it with the 32-byte seed, and wraps the result in the
    /// submission envelope. The envelope's record satisfies everything
    /// `build` promises, and its signature is the seed's signature over the
    /// record's canonical bytes, verifiable under the seed's public key.
    pub fn prepare(
        &self,
        payer: &PublicKey,
        seed: &[u8],
        speculative_nonce: Option<u64>,
        fees: Option<FeeSchedule>,
    ) -> (r: Result<Envelope, Error>)
        requires
            self.payee.wf(),
            payer.wf(),
        ensures
            match r {
                Ok(env) => ({
                    let st = env.signed_spec();
                    let t = st.txn_spec();
                    &&& self.build_ok_spec(*payer, speculative_nonce, fees, t)
                    &&& seed@.len() == 32
                    &&& st.sig_spec() == crypto::sig_of(seed@, t.ser_spec())
                    &&& crypto::sig_ok(crypto::pk_of(seed@), t.ser_spec(), st.sig_spec())
                    &&& st.sig_spec().len() == 64
                }),
                Err(e) => if e == Error::Signing {
                    seed@.len() != 32
                } else {
                    self.build_err_spec(*payer, speculative_nonce, fees, e)
                },
            },
    {
        let txn = match self.build(payer, speculative_nonce, fees) {
            Ok(t) => t,
            Err(e) => {
                return Err(e);
            },
        };
        let signed = match txn.sign(seed) {
            Ok(st) => st,
            Err(e) => {
                return Err(e);
            },
        };
        Ok(signed.in_envelope())
    }
}

} // verus!
