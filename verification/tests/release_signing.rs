use marketplace_index::commands::check_decoded_index;
use marketplace_index::args::Flags;
use marketplace_index::error::CliError;
use marketplace_index::json::encode::to_release;
use marketplace_index::keys::{verify_signature, OperatorKey};
use marketplace_index::release_signing::{attach_publisher_signature, find_release_to_sign};
use marketplace_index::schema::{EntryJson, IndexJson, PriceJson, ReleaseJson, TokenJson, ValidationJson};

fn key() -> OperatorKey {
    OperatorKey::from_file(&[42u8; 32]).unwrap()
}

fn hex(b: &[u8]) -> String {
    b.iter().map(|x| format!("{x:02x}")).collect()
}

fn release(id: &str) -> ReleaseJson {
    ReleaseJson {
        release_id: id.into(),
        manifest_hash: "aa".repeat(32),
        package_hash: "bb".repeat(32),
        package_url: String::new(),
        publisher_signature: "not hex at all".into(),
        supported_arches: vec![],
        kernel_abi_min: 1,
        required_capabilities: vec![],
        validation: ValidationJson {
            status: "pending".into(),
            note: String::new(),
            validator_id: "v".into(),
            validated_at_ms: 0,
        },
    }
}

fn index(publisher: &str) -> IndexJson {
    IndexJson {
        schema_version: 1,
        operator_id: "op".into(),
        published_at_ms: 0,
        serial: 1,
        entries: vec![EntryJson {
            listing_id: "l1".into(),
            capsule_id: "00".repeat(32),
            name: "n".into(),
            publisher_name: "p".into(),
            publisher_pubkey: publisher.into(),
            description: String::new(),
            price: PriceJson { kind: "free".into(), amount_atomic: "0".into(), period_seconds: 0 },
            token: TokenJson { symbol: "NOX".into(), decimals: 18, chain_id: 1, contract_address: String::new() },
            releases: vec![release("r0"), release("r1")],
        }],
    }
}

#[test]
fn publisher_signature_is_stored_and_reads_back() {
    let k = key();
    let pk = k.pubkey_bytes();
    let mut json = index(&hex(&pk));
    let (ei, ri, canonical) = find_release_to_sign(&json, "l1", "r1", &pk).unwrap();
    assert_eq!((ei, ri), (0, 1));
    assert!(canonical.publisher_signature.is_empty());
    let msg = canonical.manifest_hash;
    let sig = k.sign(&msg);
    attach_publisher_signature(&mut json, ei, ri, &sig);
    assert_eq!(json.entries[0].releases[1].publisher_signature, hex(&sig));
    assert_eq!(json.entries[0].releases[0].publisher_signature, "not hex at all");
    let stored = to_release(&json.entries[0].releases[1]).unwrap();
    assert_eq!(stored.publisher_signature, sig.to_vec());
    assert!(verify_signature(&pk, &msg, &sig));
}

#[test]
fn release_signing_refusals() {
    let k = key();
    let pk = k.pubkey_bytes();
    let json = index(&hex(&pk));
    match find_release_to_sign(&json, "nope", "r1", &pk) {
        Err(CliError::Json(m)) => assert_eq!(m, "listing not found: nope"),
        _ => panic!("expected missing listing"),
    }
    match find_release_to_sign(&json, "l1", "r9", &pk) {
        Err(CliError::Json(m)) => assert_eq!(m, "release not found: r9"),
        _ => panic!("expected missing release"),
    }
    let other = index(&"00".repeat(32));
    assert!(matches!(find_release_to_sign(&other, "l1", "r1", &pk), Err(CliError::PublisherPubkeyMismatch)));
}

#[test]
fn decoded_index_verdicts() {
    let k = key();
    let pk = k.pubkey_bytes();
    let body = b"signed body bytes";
    let sig = k.sign(body);
    let none = Flags::parse(&[]).unwrap();
    assert!(check_decoded_index(&pk, &pk, &sig, body, 3, &none).is_ok());
    assert!(matches!(
        check_decoded_index(&pk, &[0u8; 32], &sig, body, 3, &none),
        Err(CliError::OperatorPubkeyMismatch)
    ));
    match check_decoded_index(&pk, &pk, &sig[..63], body, 3, &none) {
        Err(CliError::DecodeFailed(m)) => assert_eq!(m, "index_signature: expected 64 bytes, got 63"),
        _ => panic!("expected decode failure"),
    }
    assert!(matches!(
        check_decoded_index(&pk, &pk, &sig, b"other bytes", 3, &none),
        Err(CliError::SignatureRefused)
    ));
    let prev = Flags::parse(&["--previous-serial".to_string(), "3".to_string()]).unwrap();
    assert!(matches!(
        check_decoded_index(&pk, &pk, &sig, body, 3, &prev),
        Err(CliError::SerialRollback { previous: 3, current: 3 })
    ));
}
