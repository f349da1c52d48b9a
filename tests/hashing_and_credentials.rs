use pqc_keystore::credentials::{decode_base64, decode_master_key, encode_base64, generate_master_key};
use pqc_keystore::error::PqcError;
use pqc_keystore::pow::{blake3_hash, blake3_pow};

fn hex(b: &[u8]) -> String {
    b.iter().map(|x| format!("{:02x}", x)).collect()
}

#[test]
fn blake3_of_empty_input() {
    assert_eq!(
        hex(&blake3_hash(b"")),
        "af1349b9f5f9a1a6a0404dea36dcc9499bcb25c9adc112b7cc9a93cae41f3262"
    );
    assert_eq!(blake3_hash(b"abc").len(), 32);
    assert_ne!(blake3_hash(b"abc"), blake3_hash(b"abd"));
}

fn work_value(header: &[u8], nonce: u32) -> u32 {
    let mut data = header.to_vec();
    data.extend_from_slice(&nonce.to_le_bytes());
    let d = blake3_hash(&data);
    u32::from_le_bytes([d[0], d[1], d[2], d[3]])
}

#[test]
fn pow_finds_least_nonce_below_difficulty() {
    let header = b"block header";
    let difficulty = 1u32 << 28;
    let n = blake3_pow(header, difficulty).unwrap();
    assert!(work_value(header, n) < difficulty);
    for m in 0..n {
        assert!(work_value(header, m) >= difficulty);
    }
}

#[test]
fn pow_with_largest_difficulty_takes_first_nonce() {
    let header = b"x";
    let expected = if work_value(header, 0) < u32::MAX { 0 } else { 1 };
    assert_eq!(blake3_pow(header, u32::MAX), Some(expected));
}

#[test]
fn base64_encodes_and_decodes() {
    assert_eq!(encode_base64(&[0, 1, 2]), "AAEC");
    assert_eq!(encode_base64(b"hi"), "aGk=");
    assert_eq!(decode_base64("AAEC"), Some(vec![0, 1, 2]));
    assert_eq!(decode_base64("not base64!"), None);
}

#[test]
fn master_key_from_store() {
    let text = encode_base64(&[5u8; 32]);
    assert_eq!(decode_master_key(&text), Ok(vec![5u8; 32]));
    assert_eq!(decode_master_key("%%%"), Err(PqcError::CredentialStoreFailure));
}

#[test]
fn generated_master_key_round_trips_through_store_text() {
    let (key, text) = generate_master_key().unwrap();
    assert_eq!(key.len(), 32);
    assert_eq!(text.len(), 44);
    assert_eq!(decode_master_key(&text).unwrap(), key);
}
