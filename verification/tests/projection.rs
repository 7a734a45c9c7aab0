use marketplace_index::abi::{PriceKind, ValidationStatus};
use marketplace_index::error::CliError;
use marketplace_index::json::decode::from_index;
use marketplace_index::json::encode::{to_index, to_price, to_token};
use marketplace_index::schema::{
    EntryJson, IndexJson, PriceJson, ReleaseJson, TokenJson, ValidationJson,
};

fn release(sig: &str) -> ReleaseJson {
    ReleaseJson {
        release_id: "r1".into(),
        manifest_hash: "AB".repeat(32),
        package_hash: "01".repeat(32),
        package_url: "https://example.invalid/p.noxc".into(),
        publisher_signature: sig.into(),
        supported_arches: vec!["x86_64-nonos".into()],
        kernel_abi_min: 3,
        required_capabilities: vec!["net".into(), "fs".into()],
        validation: ValidationJson {
            status: "validated".into(),
            note: "ok".into(),
            validator_id: "nonos.marketplace.v1".into(),
            validated_at_ms: 5,
        },
    }
}

fn entry() -> EntryJson {
    EntryJson {
        listing_id: "demo.v1".into(),
        capsule_id: "00".repeat(32),
        name: "Demo".into(),
        publisher_name: "0xNOX".into(),
        publisher_pubkey: "11".repeat(32),
        description: "d".into(),
        price: PriceJson { kind: "subscription".into(), amount_atomic: "+0010".into(), period_seconds: 60 },
        token: TokenJson {
            symbol: "NOX".into(),
            decimals: 18,
            chain_id: 1,
            contract_address: "0xDEADbeef".into(),
        },
        releases: vec![release("")],
    }
}

fn index() -> IndexJson {
    IndexJson {
        schema_version: 1,
        operator_id: "test.operator".into(),
        published_at_ms: 1_700_000_000_000,
        serial: 4,
        entries: vec![entry()],
    }
}

#[test]
fn to_index_projects_fields() {
    let idx = to_index(&index(), [9u8; 32]).unwrap();
    assert_eq!(idx.schema_version, 1);
    assert_eq!(idx.operator_id, "test.operator");
    assert_eq!(idx.operator_pubkey, [9u8; 32]);
    assert_eq!(idx.serial, 4);
    assert!(idx.index_signature.is_empty());
    let e = &idx.entries[0];
    assert_eq!(e.capsule_id, [0u8; 32]);
    assert_eq!(e.publisher_pubkey, [0x11u8; 32]);
    assert_eq!(e.price.kind, PriceKind::Subscription);
    assert_eq!(e.price.amount_atomic, 10);
    assert_eq!(e.token.contract_address, vec![0xde, 0xad, 0xbe, 0xef]);
    let r = &e.releases[0];
    assert_eq!(r.manifest_hash, [0xabu8; 32]);
    assert!(r.publisher_signature.is_empty());
    assert_eq!(r.validation.status, ValidationStatus::Validated);
    assert_eq!(r.required_capabilities, vec!["net".to_string(), "fs".to_string()]);
}

#[test]
fn from_index_normalises_and_round_trips() {
    let idx = to_index(&index(), [9u8; 32]).unwrap();
    let j = from_index(&idx);
    assert_eq!(j.entries[0].capsule_id, "00".repeat(32));
    assert_eq!(j.entries[0].releases[0].manifest_hash, "ab".repeat(32));
    assert_eq!(j.entries[0].price.kind, "subscription");
    assert_eq!(j.entries[0].price.amount_atomic, "10");
    assert_eq!(j.entries[0].token.contract_address, "0xdeadbeef");
    assert_eq!(j.entries[0].releases[0].publisher_signature, "");
    assert_eq!(j.entries[0].releases[0].validation.status, "validated");
    let again = to_index(&j, [9u8; 32]).unwrap();
    let j2 = from_index(&again);
    assert_eq!(j2.entries[0].price.amount_atomic, "10");
    assert_eq!(again.entries[0].token.contract_address, idx.entries[0].token.contract_address);
    assert_eq!(again.entries[0].releases[0].manifest_hash, idx.entries[0].releases[0].manifest_hash);
    assert_eq!(again.entries[0].price, idx.entries[0].price);
}

#[test]
fn empty_contract_address_stays_empty() {
    let t = to_token(&TokenJson { symbol: "X".into(), decimals: 0, chain_id: 0, contract_address: String::new() })
        .unwrap();
    assert!(t.contract_address.is_empty());
    let t = to_token(&TokenJson { symbol: "X".into(), decimals: 0, chain_id: 0, contract_address: "0x0x0a".into() })
        .unwrap();
    assert_eq!(t.contract_address, vec![0x0a]);
}

#[test]
fn errors_name_the_field() {
    let mut j = index();
    j.entries[0].price.kind = "gratis".into();
    match to_index(&j, [0; 32]) {
        Err(CliError::UnknownEnum { field, value }) => {
            assert_eq!(field, "price.kind");
            assert_eq!(value, "gratis");
        }
        _ => panic!("expected unknown enum"),
    }
    let mut j = index();
    j.entries[0].releases[0].validation.status = "done".into();
    assert!(matches!(to_index(&j, [0; 32]), Err(CliError::UnknownEnum { field: "validation.status", .. })));
    let mut j = index();
    j.entries[0].capsule_id = "00".repeat(31);
    assert!(matches!(
        to_index(&j, [0; 32]),
        Err(CliError::BadHexLen { field: "capsule_id", expected: 32, got: 31 })
    ));
    let mut j = index();
    j.entries[0].releases[0].package_hash = "0".into();
    match to_index(&j, [0; 32]) {
        Err(CliError::Json(m)) => assert_eq!(m, "package_hash: Odd number of digits"),
        _ => panic!("expected json error"),
    }
    let mut j = index();
    j.entries[0].releases[0].publisher_signature = "xy".into();
    match to_index(&j, [0; 32]) {
        Err(CliError::Json(m)) => assert_eq!(m, "publisher_signature: Invalid character 'x' at position 0"),
        _ => panic!("expected json error"),
    }
    let mut j = index();
    j.entries[0].token.contract_address = "0xZZ".into();
    match to_index(&j, [0; 32]) {
        Err(CliError::Json(m)) => assert_eq!(m, "token.contract_address: Invalid character 'Z' at position 0"),
        _ => panic!("expected json error"),
    }
}

#[test]
fn first_failure_wins() {
    let mut j = index();
    j.entries[0].releases[0].publisher_signature = "x".into();
    j.entries[0].releases[0].manifest_hash = "short".into();
    match to_index(&j, [0; 32]) {
        Err(CliError::Json(m)) => assert_eq!(m, "publisher_signature: Odd number of digits"),
        _ => panic!("expected json error"),
    }
}

#[test]
fn amount_parsing_follows_u128_rules() {
    let p = |s: &str| to_price(&PriceJson { kind: "one_time".into(), amount_atomic: s.into(), period_seconds: 0 });
    assert_eq!(p("340282366920938463463374607431768211455").unwrap().amount_atomic, u128::MAX);
    for bad in ["340282366920938463463374607431768211456", "", "+", "-1", " 1", "1e3"] {
        match p(bad) {
            Err(CliError::Json(m)) => assert_eq!(m, format!("price.amount_atomic: not a u128: {bad}")),
            _ => panic!("expected json error for {bad:?}"),
        }
    }
}

#[test]
fn canonical_json_is_reproduced_exactly() {
    let mut j = index();
    j.entries[0].releases[0].manifest_hash = "ab".repeat(32);
    j.entries[0].price.amount_atomic = "10".into();
    j.entries[0].token.contract_address = "0xdeadbeef".into();
    j.entries[0].releases[0].publisher_signature = "0a".repeat(64);
    let back = from_index(&to_index(&j, [1u8; 32]).unwrap());
    let (a, b) = (&j.entries[0], &back.entries[0]);
    assert_eq!(back.operator_id, j.operator_id);
    assert_eq!((back.schema_version, back.published_at_ms, back.serial), (j.schema_version, j.published_at_ms, j.serial));
    assert_eq!(
        (&b.listing_id, &b.capsule_id, &b.name, &b.publisher_name, &b.publisher_pubkey, &b.description),
        (&a.listing_id, &a.capsule_id, &a.name, &a.publisher_name, &a.publisher_pubkey, &a.description)
    );
    assert_eq!((&b.price.kind, &b.price.amount_atomic, b.price.period_seconds), (&a.price.kind, &a.price.amount_atomic, a.price.period_seconds));
    assert_eq!((&b.token.symbol, b.token.decimals, b.token.chain_id, &b.token.contract_address), (&a.token.symbol, a.token.decimals, a.token.chain_id, &a.token.contract_address));
    let (ra, rb) = (&a.releases[0], &b.releases[0]);
    assert_eq!(
        (&rb.release_id, &rb.manifest_hash, &rb.package_hash, &rb.package_url, &rb.publisher_signature),
        (&ra.release_id, &ra.manifest_hash, &ra.package_hash, &ra.package_url, &ra.publisher_signature)
    );
    assert_eq!((&rb.supported_arches, rb.kernel_abi_min, &rb.required_capabilities), (&ra.supported_arches, ra.kernel_abi_min, &ra.required_capabilities));
    assert_eq!(
        (&rb.validation.status, &rb.validation.note, &rb.validation.validator_id, rb.validation.validated_at_ms),
        (&ra.validation.status, &ra.validation.note, &ra.validation.validator_id, ra.validation.validated_at_ms)
    );
}
