use burn_txn::b64;
use burn_txn::burn::Cmd;
use burn_txn::keys::PublicKey;
use burn_txn::memo::Memo;
use burn_txn::present::{amount_string, dec_string, render, OutputFormat};
use burn_txn::txn::{Envelope, PendingStatus, TxnState, UnsignedTxn};
use burn_txn::Error;

const BASE_URL: &str = "https://api.example.org/v1/pending_transactions/";

fn signed_envelope(commit_hash: Option<&str>) -> (Envelope, Option<PendingStatus>) {
    let seed = [7u8; 32];
    let payer = PublicKey::from_seed(&seed).unwrap();
    let cmd = Cmd {
        payee: PublicKey::from_bytes(&[0x11u8; 32]).unwrap(),
        memo: Memo::from_b64("").unwrap(),
        amount: 10,
        nonce: Some(5),
        fee: Some(100),
        commit: commit_hash.is_some(),
    };
    let txn = cmd.build(&payer, None, None).unwrap();
    let envelope = txn.sign(&seed).unwrap().in_envelope();
    let status = commit_hash.map(|h| PendingStatus { hash: h.to_string(), state: TxnState::Pending });
    (envelope, status)
}

#[test]
fn amount_and_decimal_rendering() {
    assert_eq!(amount_string(10), "0.00000010");
    assert_eq!(amount_string(0), "0.00000000");
    assert_eq!(amount_string(123456789), "1.23456789");
    assert_eq!(amount_string(100000000), "1.00000000");
    assert_eq!(dec_string(0), "0");
    assert_eq!(dec_string(18446744073709551615), "18446744073709551615");
}

#[test]
fn dry_run_table_shows_sentinel_and_bare_url() {
    let (envelope, status) = signed_envelope(None);
    let out = render(&envelope, &status, BASE_URL, OutputFormat::Table).unwrap();
    let lines: Vec<&str> = out.lines().collect();
    assert_eq!(lines[0], "Key            Value");
    assert_eq!(lines[1], format!("Payee          {}", "11".repeat(32)));
    assert_eq!(lines[2], "Memo           AAAAAAAAAAA=");
    assert_eq!(lines[3], "Amount (HNT)   0.00000010");
    assert_eq!(lines[4], "Fee (DC)       100");
    assert_eq!(lines[5], "Nonce          5");
    assert_eq!(lines[6], "Hash           none");
    // Not submitted: the status URL carries no hash segment.
    assert_eq!(lines[7], format!("Status         {BASE_URL}"));
    assert_eq!(lines[8], "none");
}

#[test]
fn dry_run_json_shows_sentinel_and_bare_url() {
    let (envelope, status) = signed_envelope(None);
    let out = render(&envelope, &status, BASE_URL, OutputFormat::Json).unwrap();
    let v: serde_json::Value = serde_json::from_str(&out).unwrap();
    assert_eq!(v["payee"].as_str().unwrap(), "11".repeat(32));
    assert!((v["amount"].as_f64().unwrap() - 0.0000001).abs() < 1e-12);
    assert_eq!(v["memo"].as_str().unwrap(), "AAAAAAAAAAA=");
    assert_eq!(v["fee"].as_u64().unwrap(), 100);
    assert_eq!(v["nonce"].as_u64().unwrap(), 5);
    assert_eq!(v["hash"].as_str().unwrap(), "none");
    assert_eq!(v["status"].as_str().unwrap(), BASE_URL);
}

#[test]
fn submitted_status_url_appends_hash() {
    let (envelope, status) = signed_envelope(Some("0xAB12"));
    let out = render(&envelope, &status, BASE_URL, OutputFormat::Json).unwrap();
    let v: serde_json::Value = serde_json::from_str(&out).unwrap();
    assert_eq!(v["hash"].as_str().unwrap(), "0xAB12");
    assert_eq!(v["status"].as_str().unwrap(), format!("{BASE_URL}0xAB12"));
    let table = render(&envelope, &status, BASE_URL, OutputFormat::Table).unwrap();
    assert!(table.lines().any(|l| l == format!("Status         {BASE_URL}0xAB12")));
    assert!(table.lines().any(|l| l == "Pending"));
}

#[test]
fn json_txn_field_round_trips_to_envelope_bytes() {
    let (envelope, status) = signed_envelope(Some("0xAB12"));
    let out = render(&envelope, &status, BASE_URL, OutputFormat::Json).unwrap();
    let v: serde_json::Value = serde_json::from_str(&out).unwrap();
    let txn_field = v["txn"].as_str().unwrap();
    let decoded = b64::decode(txn_field.as_bytes()).unwrap();
    assert_eq!(decoded, envelope.serialize());
}

#[test]
fn render_rechecks_payee_bytes() {
    let seed = [7u8; 32];
    let txn = UnsignedTxn {
        fee: 1,
        payee: vec![1, 2, 3],
        amount: 1,
        payer: PublicKey::from_seed(&seed).unwrap().to_vec(),
        memo: 0,
        nonce: 1,
    };
    let envelope = txn.sign(&seed).unwrap().in_envelope();
    let r = render(&envelope, &None, BASE_URL, OutputFormat::Json);
    assert_eq!(r.unwrap_err(), Error::InvalidPublicKey);
}

#[test]
fn failed_state_appears_in_footer() {
    let (envelope, _) = signed_envelope(None);
    let status = Some(PendingStatus { hash: "h1".to_string(), state: TxnState::Failed });
    let table = render(&envelope, &status, BASE_URL, OutputFormat::Table).unwrap();
    assert!(table.ends_with("Failed\n"));
    assert!(table.lines().any(|l| l == "Hash           h1"));
}

#[test]
fn table_and_json_expose_the_same_data() {
    let (envelope, status) = signed_envelope(Some("0xAB12"));
    let json = render(&envelope, &status, BASE_URL, OutputFormat::Json).unwrap();
    let v: serde_json::Value = serde_json::from_str(&json).unwrap();
    let table = render(&envelope, &status, BASE_URL, OutputFormat::Table).unwrap();
    for field in [
        v["payee"].as_str().unwrap().to_string(),
        v["memo"].as_str().unwrap().to_string(),
        v["fee"].as_u64().unwrap().to_string(),
        v["nonce"].as_u64().unwrap().to_string(),
        v["hash"].as_str().unwrap().to_string(),
        v["status"].as_str().unwrap().to_string(),
    ] {
        assert!(table.contains(&field));
    }
}
