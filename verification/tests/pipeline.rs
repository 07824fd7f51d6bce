use burn_txn::burn::Cmd;
use burn_txn::fee::{calc_fee, FeeSchedule};
use burn_txn::keys::PublicKey;
use burn_txn::memo::Memo;
use burn_txn::Error;

fn payee() -> PublicKey {
    PublicKey::from_bytes(&[0x11u8; 32]).unwrap()
}

fn payer_for(seed: &[u8; 32]) -> PublicKey {
    PublicKey::from_seed(seed).unwrap()
}

fn base_cmd() -> Cmd {
    Cmd {
        payee: payee(),
        memo: Memo::from_b64("").unwrap(),
        amount: 10,
        nonce: Some(5),
        fee: Some(100),
        commit: false,
    }
}

#[test]
fn nonce_override_is_used_unchanged() {
    let cmd = base_cmd();
    assert!(!cmd.needs_account_lookup());
    // No account value is handed in: the override must suffice.
    let txn = cmd.build(&payer_for(&[7u8; 32]), None, None).unwrap();
    assert_eq!(txn.nonce, 5);
}

#[test]
fn nonce_from_account_is_speculative_plus_one() {
    let mut cmd = base_cmd();
    cmd.nonce = None;
    assert!(cmd.needs_account_lookup());
    let txn = cmd.build(&payer_for(&[7u8; 32]), Some(41), None).unwrap();
    assert_eq!(txn.nonce, 42);
}

#[test]
fn fee_override_is_used_unchanged() {
    let cmd = base_cmd();
    assert!(!cmd.needs_fee_schedule());
    // No schedule is handed in: the override must suffice.
    let txn = cmd.build(&payer_for(&[7u8; 32]), None, None).unwrap();
    assert_eq!(txn.fee, 100);
}

#[test]
fn fee_prices_canonical_bytes_with_zero_fee() {
    let mut cmd = base_cmd();
    cmd.fee = None;
    assert!(cmd.needs_fee_schedule());
    let schedule = FeeSchedule { dc_per_byte: 5 };
    let txn = cmd.build(&payer_for(&[7u8; 32]), None, Some(schedule)).unwrap();
    // The canonical layout is fixed-width: 4 integers of 8 bytes and 2 keys
    // of 32 bytes make 96 bytes.
    assert_eq!(txn.serialize().len(), 96);
    assert_eq!(txn.fee, 96 * 5);
    assert_eq!(calc_fee(96, &schedule), Some(480));
}

#[test]
fn build_error_cases() {
    let payer = payer_for(&[7u8; 32]);
    let mut cmd = base_cmd();
    cmd.nonce = None;
    assert_eq!(cmd.build(&payer, None, None).unwrap_err(), Error::AccountLookup);
    assert_eq!(cmd.build(&payer, Some(u64::MAX), None).unwrap_err(), Error::NonceOverflow);
    let mut cmd = base_cmd();
    cmd.fee = None;
    assert_eq!(cmd.build(&payer, None, None).unwrap_err(), Error::FeeSchedule);
    let huge = FeeSchedule { dc_per_byte: u64::MAX };
    assert_eq!(cmd.build(&payer, None, Some(huge)).unwrap_err(), Error::FeeOverflow);
}

#[test]
fn sign_rejects_bad_seed() {
    let cmd = base_cmd();
    let txn = cmd.build(&payer_for(&[7u8; 32]), None, None).unwrap();
    assert_eq!(txn.sign(&[1u8; 31]).unwrap_err(), Error::Signing);
}

#[test]
fn signature_verifies_and_mutations_fail() {
    let seed = [7u8; 32];
    let payer = payer_for(&seed);
    let cmd = base_cmd();
    let txn = cmd.build(&payer, None, None).unwrap();
    let signed = txn.sign(&seed).unwrap();
    let pk = payer.to_vec();
    // Re-serializing the unsigned record and verifying always succeeds for
    // a signer-produced signature.
    assert!(signed.verify(&pk));
    // A mutated signature fails.
    let mut bad_sig = signed.signature().clone();
    bad_sig[0] ^= 1;
    assert!(!signed.txn().verify_signature(&pk, &bad_sig));
    // A single-bit mutation of any field fails: the signature was made over
    // other bytes.
    for field in 0..6 {
        let mut mutated = cmd.build(&payer, None, None).unwrap();
        match field {
            0 => mutated.fee ^= 1,
            1 => mutated.payee[0] ^= 1,
            2 => mutated.amount ^= 1,
            3 => mutated.payer[0] ^= 1,
            4 => mutated.memo ^= 1,
            _ => mutated.nonce ^= 1,
        }
        assert!(!mutated.verify_signature(&pk, signed.signature()));
    }
    // A wrong key fails.
    let other = PublicKey::from_seed(&[8u8; 32]).unwrap();
    assert!(!signed.verify(&other.to_vec()));
}

#[test]
fn fee_overflow_is_reported() {
    let schedule = FeeSchedule { dc_per_byte: u64::MAX };
    assert_eq!(calc_fee(2, &schedule), None);
    assert_eq!(calc_fee(1, &schedule), Some(u64::MAX));
    assert_eq!(calc_fee(0, &schedule), Some(0));
}

#[test]
fn signing_is_deterministic() {
    let seed = [9u8; 32];
    let payer = payer_for(&seed);
    let cmd = base_cmd();
    // Signing the identical frozen record twice gives the identical
    // signature, and it is a real signature, not the message handed back.
    let first = cmd.build(&payer, None, None).unwrap().sign(&seed).unwrap();
    let second = cmd.build(&payer, None, None).unwrap().sign(&seed).unwrap();
    assert_eq!(first.signature(), second.signature());
    assert_eq!(first.signature().len(), 64);
    // The derived key is a real derivation, not the seed handed back.
    let pk = payer.to_vec();
    assert_eq!(pk.len(), 32);
    assert_ne!(pk, seed.to_vec());
}

#[test]
fn dry_run_never_submits() {
    let cmd = base_cmd();
    // commit=false: nothing must be transmitted, whatever the other
    // inputs are.
    assert!(!cmd.should_submit());
    let mut cmd = cmd;
    cmd.commit = true;
    assert!(cmd.should_submit());
}

#[test]
fn prepare_builds_signs_and_wraps() {
    let seed = [7u8; 32];
    let payer = payer_for(&seed);
    let cmd = base_cmd();
    let envelope = cmd.prepare(&payer, &seed, None, None).unwrap();
    // The same inputs, step by step, give byte-identical wire output.
    let by_steps = cmd.build(&payer, None, None).unwrap().sign(&seed).unwrap().in_envelope();
    assert_eq!(envelope.serialize(), by_steps.serialize());
    assert!(envelope.txn().verify(&payer.to_vec()));
    // Errors pass through from the stage that failed.
    assert_eq!(cmd.prepare(&payer, &[1u8; 31], None, None).unwrap_err(), Error::Signing);
    let mut no_nonce = base_cmd();
    no_nonce.nonce = None;
    assert_eq!(no_nonce.prepare(&payer, &seed, None, None).unwrap_err(), Error::AccountLookup);
}

#[test]
fn envelope_bytes_are_stable() {
    let seed = [7u8; 32];
    let cmd = base_cmd();
    let txn = cmd.build(&payer_for(&seed), None, None).unwrap();
    let unsigned_bytes = txn.serialize();
    let signed = txn.sign(&seed).unwrap();
    let sig = signed.signature().clone();
    let envelope = signed.in_envelope();
    let wire = envelope.serialize();
    // Tag, then the canonical unsigned bytes, then the signature.
    assert_eq!(wire[0], burn_txn::txn::TOKEN_BURN_TAG);
    assert_eq!(&wire[1..97], unsigned_bytes.as_slice());
    assert_eq!(&wire[97..], sig.as_slice());
    // Serializing twice gives identical bytes.
    assert_eq!(envelope.serialize(), wire);
}
