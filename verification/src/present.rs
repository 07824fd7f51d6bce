//! The result presenter: renders a finalized envelope and its (possibly
//! absent) pending status as a table or as JSON. Both encodings expose the
//! same data; the contracts give the output text exactly, so the JSON's
//! base64 `txn` field is provably the envelope's wire bytes.

use vstd::prelude::*;
use vstd::string::StringExecFns;
use crate::Error;
use crate::b64;
use crate::keys::PublicKey;
use crate::memo;
use crate::text::{all_ascii, ascii_chars, dec_digits, hex_of};
use crate::txn::{Envelope, PendingStatus, TxnState};

verus! {

/// The requested output encoding; both carry the same data.
#[derive(Clone, Copy, PartialEq, Eq, Structural, Debug)]
pub enum OutputFormat {
    Table,
    Json,
}

/// Eight fractional decimal digits of a value below 10^8.
pub open spec fn frac8(f: u64) -> Seq<u8> {
    seq![
        (0x30 + (f / 10000000) % 10) as u8,
        (0x30 + (f / 1000000) % 10) as u8,
        (0x30 + (f / 100000) % 10) as u8,
        (0x30 + (f / 10000) % 10) as u8,
        (0x30 + (f / 1000) % 10) as u8,
        (0x30 + (f / 100) % 10) as u8,
        (0x30 + (f / 10) % 10) as u8,
        (0x30 + f % 10) as u8,
    ]
}

/// An amount in display units: smallest units divided by 10^8, rendered
/// with all eight fractional digits.
pub open spec fn amount_text(v: u64) -> Seq<u8> {
    dec_digits((v / 100000000) as nat) + seq![0x2eu8] + frac8((v % 100000000) as u64)
}

/// The hash shown for a status: the node's hash, or the sentinel for a
/// transaction that was not submitted.
pub open spec fn hash_text(status: Option<PendingStatus>) -> Seq<char> {
    match status {
        Some(st) => st.hash@,
        None => "none"@,
    }
}

/// The segment appended to the status-query URL: the hash when submitted,
/// nothing otherwise.
pub open spec fn url_suffix(status: Option<PendingStatus>) -> Seq<char> {
    match status {
        Some(st) => st.hash@,
        None => Seq::empty(),
    }
}

/// The footer's state word.
pub open spec fn state_text(status: Option<PendingStatus>) -> Seq<char> {
    match status {
        Some(st) => match st.state {
            TxnState::Pending => "Pending"@,
            TxnState::Failed => "Failed"@,
        },
        None => "none"@,
    }
}

/// The JSON rendering, keys in fixed order: payee, amount, memo, fee,
/// nonce, hash, txn, status.
pub open spec fn json_view(
    payee_hex: Seq<u8>,
    amount: u64,
    memo_b64: Seq<u8>,
    fee: u64,
    nonce: u64,
    status: Option<PendingStatus>,
    env_b64: Seq<u8>,
    url: Seq<char>,
) -> Seq<char> {
    "{\"payee\":\""@ + ascii_chars(payee_hex) + "\",\"amount\":"@ + ascii_chars(
        amount_text(amount),
    ) + ",\"memo\":\""@ + ascii_chars(memo_b64) + "\",\"fee\":"@ + ascii_chars(
        dec_digits(fee as nat),
    ) + ",\"nonce\":"@ + ascii_chars(dec_digits(nonce as nat)) + ",\"hash\":\""@ + hash_text(
        status,
    ) + "\",\"txn\":\""@ + ascii_chars(env_b64) + "\",\"status\":\""@ + url + url_suffix(status)
        + "\"}"@
}

/// The table rendering: the same fields as rows, plus a trailing status
/// footer line.
pub open spec fn table_view(
    payee_hex: Seq<u8>,
    amount: u64,
    memo_b64: Seq<u8>,
    fee: u64,
    nonce: u64,
    status: Option<PendingStatus>,
    url: Seq<char>,
) -> Seq<char> {
    "Key            Value\n"@ + "Payee          "@ + ascii_chars(payee_hex) + "\n"@
        + "Memo           "@ + ascii_chars(memo_b64) + "\n"@ + "Amount (HNT)   "@ + ascii_chars(
        amount_text(amount),
    ) + "\n"@ + "Fee (DC)       "@ + ascii_chars(dec_digits(fee as nat)) + "\n"@
        + "Nonce          "@ + ascii_chars(dec_digits(nonce as nat)) + "\n"@ + "Hash           "@
        + hash_text(status) + "\n"@ + "Status         "@ + url + url_suffix(status) + "\n"@
        + state_text(status) + "\n"@
}

/// Round trip of the audit spelling: decoding the base64 `txn` field the
/// JSON output carries reproduces exactly the envelope bytes that would be
/// submitted.
pub proof fn lemma_envelope_round_trip(envelope: Envelope)
    ensures
        b64::b64_parse(b64::b64_of(envelope.ser_spec())) == Some(envelope.ser_spec()),
{
    b64::lemma_b64_round_trip(envelope.ser_spec());
}

fn frac8_exec(f: u64) -> (r: Vec<u8>)
    ensures
        r@ == frac8(f),
{
    let mut r: Vec<u8> = Vec::new();
    r.push(0x30 + ((f / 10000000) % 10) as u8);
    r.push(0x30 + ((f / 1000000) % 10) as u8);
    r.push(0x30 + ((f / 100000) % 10) as u8);
    r.push(0x30 + ((f / 10000) % 10) as u8);
    r.push(0x30 + ((f / 1000) % 10) as u8);
    r.push(0x30 + ((f / 100) % 10) as u8);
    r.push(0x30 + ((f / 10) % 10) as u8);
    r.push(0x30 + (f % 10) as u8);
    assert(r@ =~= frac8(f));
    r
}

proof fn lemma_amount_ascii(v: u64)
    ensures
        all_ascii(amount_text(v)),
{
    crate::text::lemma_dec_ascii((v / 100000000) as nat);
}

/// Renders an integer in decimal.
pub fn dec_string(v: u64) -> (r: String)
    ensures
        r@ == ascii_chars(dec_digits(v as nat)),
{
    let d = crate::text::dec_u64(v);
    proof {
        crate::text::lemma_dec_ascii(v as nat);
    }
    crate::text::ascii_to_string(d)
}

/// Renders an amount of smallest units in display units.
pub fn amount_string(v: u64) -> (r: String)
    ensures
        r@ == ascii_chars(amount_text(v)),
{
    let mut d = crate::text::dec_u64(v / 100000000);
    d.push(0x2e);
    let mut frac = frac8_exec(v % 100000000);
    d.append(&mut frac);
    proof {
        lemma_amount_ascii(v);
        assert(d@ =~= amount_text(v));
    }
    crate::text::ascii_to_string(d)
}

/// Renders the envelope's wire bytes in base64, the audit/replay spelling
/// the JSON output carries.
pub fn envelope_b64(envelope: &Envelope) -> (r: String)
    ensures
        r@ == ascii_chars(b64::b64_of(envelope.ser_spec())),
{
    let bytes = envelope.serialize();
    let enc = b64::encode(bytes.as_slice());
    proof {
        b64::lemma_b64_ascii(envelope.ser_spec());
    }
    crate::text::ascii_to_string(enc)
}

/// Renders the finalized transaction in the requested encoding. The payee
/// is re-decoded from the signed record's bytes as a consistency check; the
/// memo is shown decoded (base64), the amount in display units, and the
/// status-query URL is the given prefix followed by the hash when the
/// transaction was submitted. Fails only when the frozen payee bytes no
/// longer form a key.
pub fn render(
    envelope: &Envelope,
    status: &Option<PendingStatus>,
    pending_url: &str,
    format: OutputFormat,
) -> (r: Result<String, Error>)
    ensures
        ({
            let t = envelope.signed_spec().txn_spec();
            match r {
                Ok(out) => t.payee@.len() == 32 && (match format {
                    OutputFormat::Json => out@ == json_view(
                        hex_of(t.payee@),
                        t.amount,
                        memo::memo_text(t.memo),
                        t.fee,
                        t.nonce,
                        *status,
                        b64::b64_of(envelope.ser_spec()),
                        pending_url@,
                    ),
                    OutputFormat::Table => out@ == table_view(
                        hex_of(t.payee@),
                        t.amount,
                        memo::memo_text(t.memo),
                        t.fee,
                        t.nonce,
                        *status,
                        pending_url@,
                    ),
                }),
                Err(e) => e == Error::InvalidPublicKey && t.payee@.len() != 32,
            }
        }),
{
    let st = envelope.txn();
    let t = st.txn();
    let payee = match PublicKey::from_bytes(t.payee.as_slice()) {
        Ok(k) => k,
        Err(e) => {
            return Err(e);
        },
    };
    let payee_str = payee.to_text();
    let memo_str = memo::Memo(t.memo).to_b64();
    let amount_str = amount_string(t.amount);
    let fee_str = dec_string(t.fee);
    let nonce_str = dec_string(t.nonce);
    let hash_str: &str = match status {
        Some(ps) => ps.hash.as_str(),
        None => "none",
    };
    let mut out = String::new();
    match format {
        OutputFormat::Json => {
            let env_str = envelope_b64(envelope);
            out.append("{\"payee\":\"");
            out.append(payee_str.as_str());
            out.append("\",\"amount\":");
            out.append(amount_str.as_str());
            out.append(",\"memo\":\"");
            out.append(memo_str.as_str());
            out.append("\",\"fee\":");
            out.append(fee_str.as_str());
            out.append(",\"nonce\":");
            out.append(nonce_str.as_str());
            out.append(",\"hash\":\"");
            out.append(hash_str);
            out.append("\",\"txn\":\"");
            out.append(env_str.as_str());
            out.append("\",\"status\":\"");
            out.append(pending_url);
            match status {
                Some(ps) => out.append(ps.hash.as_str()),
                None => (),
            }
            out.append("\"}");
            proof {
                assert(out@ =~= json_view(
                    hex_of(t.payee@),
                    t.amount,
                    memo::memo_text(t.memo),
                    t.fee,
                    t.nonce,
                    *status,
                    b64::b64_of(envelope.ser_spec()),
                    pending_url@,
                ));
            }
            Ok(out)
        },
        OutputFormat::Table => {
            out.append("Key            Value\n");
            out.append("Payee          ");
            out.append(payee_str.as_str());
            out.append("\n");
            out.append("Memo           ");
            out.append(memo_str.as_str());
            out.append("\n");
            out.append("Amount (HNT)   ");
            out.append(amount_str.as_str());
            out.append("\n");
            out.append("Fee (DC)       ");
            out.append(fee_str.as_str());
            out.append("\n");
            out.append("Nonce          ");
            out.append(nonce_str.as_str());
            out.append("\n");
            out.append("Hash           ");
            out.append(hash_str);
            out.append("\n");
            out.append("Status         ");
            out.append(pending_url);
            match status {
                Some(ps) => out.append(ps.hash.as_str()),
                None => (),
            }
            out.append("\n");
            let state_str: &str = match status {
                Some(ps) => match ps.state {
                    TxnState::Pending => "Pending",
                    TxnState::Failed => "Failed",
                },
                None => "none",
            };
            out.append(state_str);
            out.append("\n");
            proof {
                assert(out@ =~= table_view(
                    hex_of(t.payee@),
                    t.amount,
                    memo::memo_text(t.memo),
                    t.fee,
                    t.nonce,
                    *status,
                    pending_url@,
                ));
            }
            Ok(out)
        },
    }
}

} // verus!
