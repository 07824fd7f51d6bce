use burn_txn::b64;
use burn_txn::keys::PublicKey;
use burn_txn::memo::Memo;
use burn_txn::text;
use burn_txn::txn::{u64_from_le_exec, u64_le_exec};
use burn_txn::Error;

#[test]
fn b64_known_values() {
    assert_eq!(b64::encode(b""), b"".to_vec());
    assert_eq!(b64::encode(b"f"), b"Zg==".to_vec());
    assert_eq!(b64::encode(b"fo"), b"Zm8=".to_vec());
    assert_eq!(b64::encode(b"foo"), b"Zm9v".to_vec());
    assert_eq!(b64::encode(b"foob"), b"Zm9vYg==".to_vec());
    assert_eq!(b64::encode(b"fooba"), b"Zm9vYmE=".to_vec());
    assert_eq!(b64::encode(b"foobar"), b"Zm9vYmFy".to_vec());
}

#[test]
fn b64_decode_round_trip() {
    let inputs: Vec<Vec<u8>> = vec![
        vec![],
        vec![0],
        vec![255],
        vec![1, 2],
        vec![1, 2, 3],
        vec![1, 2, 3, 4],
        (0u8..=255).collect(),
    ];
    for bytes in inputs {
        let enc = b64::encode(&bytes);
        assert_eq!(b64::decode(&enc), Some(bytes));
    }
}

#[test]
fn b64_decode_rejects_bad_input() {
    assert_eq!(b64::decode(b"Zg="), None);
    assert_eq!(b64::decode(b"Z"), None);
    assert_eq!(b64::decode(b"Zg=a"), None);
    assert_eq!(b64::decode(b"Z!=="), None);
    // Non-canonical: unused bits of the last sextet are set.
    assert_eq!(b64::decode(b"Zh=="), None);
}

#[test]
fn u64_little_endian_round_trip() {
    for v in [0u64, 1, 255, 256, 0xdead_beef, u64::MAX] {
        let bytes = u64_le_exec(v);
        assert_eq!(bytes.len(), 8);
        assert_eq!(u64_from_le_exec(&bytes), v);
    }
    assert_eq!(u64_le_exec(0x0102_0304_0506_0708), vec![8, 7, 6, 5, 4, 3, 2, 1]);
}

#[test]
fn memo_empty_string_is_zero() {
    assert_eq!(Memo::from_b64(""), Ok(Memo(0)));
    assert_eq!(Memo(0).to_b64(), "AAAAAAAAAAA=");
}

#[test]
fn memo_round_trip() {
    for v in [0u64, 1, 12345, u64::MAX] {
        let text = Memo(v).to_b64();
        assert_eq!(Memo::from_b64(&text), Ok(Memo(v)));
    }
}

#[test]
fn memo_rejects_overwide_and_malformed() {
    // Nine bytes do not fit the eight-byte width.
    let nine = b64::encode(&[1u8; 9]);
    let nine = String::from_utf8(nine).unwrap();
    assert_eq!(Memo::from_b64(&nine), Err(Error::MemoEncoding));
    assert_eq!(Memo::from_b64("!!!"), Err(Error::MemoEncoding));
}

#[test]
fn hex_round_trip() {
    let bytes: Vec<u8> = (0u8..=255).collect();
    let enc = text::hex_encode(&bytes);
    assert_eq!(text::hex_decode(&enc), Some(bytes));
    assert_eq!(text::hex_encode(&[0xde, 0xad, 0x01]), b"dead01".to_vec());
}

#[test]
fn public_key_text_round_trip() {
    let key = PublicKey::from_bytes(&[0xabu8; 32]).unwrap();
    let text = key.to_text();
    assert_eq!(text, "ab".repeat(32));
    let back = PublicKey::from_text(&text).unwrap();
    assert_eq!(back.to_vec(), vec![0xabu8; 32]);
}

#[test]
fn public_key_rejects_bad_input() {
    assert!(matches!(PublicKey::from_bytes(&[1u8; 31]), Err(Error::InvalidPublicKey)));
    assert!(matches!(PublicKey::from_bytes(&[1u8; 33]), Err(Error::InvalidPublicKey)));
    assert!(matches!(PublicKey::from_text("xyz"), Err(Error::InvalidPublicKey)));
    // Right characters, wrong length.
    assert!(matches!(PublicKey::from_text("abcd"), Err(Error::InvalidPublicKey)));
    // Upper-case hex is not the canonical spelling.
    let upper = "AB".repeat(32);
    assert!(matches!(PublicKey::from_text(&upper), Err(Error::InvalidPublicKey)));
}
