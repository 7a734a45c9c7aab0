use marketplace_index::error::CliError;
use marketplace_index::keys::{parse_pubkey, verify_signature, OperatorKey};

// RFC 8032, section 7.1, TEST 1.
const SEED: &str = "9d61b19deffd5a60ba844af492ec2cc44449c5697b326919703bac031cae7f60";
const PUBKEY: &str = "d75a980182b10ab7d54bfed3c964073a0ee172f3daa62325af021a68f707511a";
const SIG_EMPTY: &str = "e5564300c360ac729086e2cc806e828a84877f1eb8e5d974d873e065224901555fb8821590a33bacc61e39701cf9b46bd25bf5f0595bbe24655141438e7a100b";

fn unhex(s: &str) -> Vec<u8> {
    (0..s.len() / 2).map(|i| u8::from_str_radix(&s[2 * i..2 * i + 2], 16).unwrap()).collect()
}

#[test]
fn rfc8032_public_key_and_signature() {
    let key = OperatorKey::from_file(&unhex(SEED)).unwrap();
    assert_eq!(key.pubkey_bytes().to_vec(), unhex(PUBKEY));
    assert_eq!(key.sign(&[]).to_vec(), unhex(SIG_EMPTY));
}

#[test]
fn signature_verifies_under_own_key_and_not_after_mutation() {
    let key = OperatorKey::from_file(&unhex(SEED)).unwrap();
    let pk = key.pubkey_bytes();
    let msg = b"marketplace index body";
    let sig = key.sign(msg);
    assert!(verify_signature(&pk, msg, &sig));
    let mut other = msg.to_vec();
    other[0] ^= 0xff;
    assert!(!verify_signature(&pk, &other, &sig));
    let mut bad = sig;
    bad[0] ^= 1;
    assert!(!verify_signature(&pk, msg, &bad));
}

#[test]
fn seed_length_is_checked() {
    match OperatorKey::from_file(&[1u8; 31]) {
        Err(CliError::KeyError(m)) => assert_eq!(m, "key file: expected 32-byte seed, got 31"),
        _ => panic!("expected key error"),
    }
}

#[test]
fn env_seed_is_trimmed_hex() {
    let padded = format!("  {SEED}\n");
    let key = OperatorKey::from_env("NONOS_OPERATOR_SEED", Some(&padded)).unwrap();
    assert_eq!(key.pubkey_bytes().to_vec(), unhex(PUBKEY));
    match OperatorKey::from_env("NONOS_OPERATOR_SEED", None) {
        Err(CliError::KeyError(m)) => assert_eq!(m, "env var NONOS_OPERATOR_SEED not set"),
        _ => panic!("expected key error"),
    }
    match OperatorKey::from_env("V", Some("abc")) {
        Err(CliError::KeyError(m)) => assert_eq!(m, "env var V: hex: Odd number of digits"),
        _ => panic!("expected key error"),
    }
    match OperatorKey::from_env("V", Some("zz")) {
        Err(CliError::KeyError(m)) => assert_eq!(m, "env var V: hex: Invalid character 'z' at position 0"),
        _ => panic!("expected key error"),
    }
    match OperatorKey::from_env("V", Some("abcd")) {
        Err(CliError::KeyError(m)) => assert_eq!(m, "V: expected 32-byte seed, got 2"),
        _ => panic!("expected key error"),
    }
}

#[test]
fn parse_pubkey_accepts_either_case() {
    assert_eq!(parse_pubkey(&PUBKEY.to_uppercase()).unwrap().to_vec(), unhex(PUBKEY));
    match parse_pubkey("0g") {
        Err(CliError::Json(m)) => assert_eq!(m, "pubkey: Invalid character 'g' at position 1"),
        _ => panic!("expected json error"),
    }
}
