use marketplace_index::error::CliError;

#[test]
fn exit_codes_separate_failure_kinds() {
    assert_eq!(CliError::Io("x".into()).exit_code(), 2);
    assert_eq!(CliError::Json("x".into()).exit_code(), 3);
    assert_eq!(CliError::UnknownEnum { field: "price.kind", value: "x".into() }.exit_code(), 3);
    assert_eq!(CliError::BadHexLen { field: "capsule_id", expected: 32, got: 1 }.exit_code(), 3);
    assert_eq!(CliError::KeyError("x".into()).exit_code(), 4);
    assert_eq!(CliError::DecodeFailed("x".into()).exit_code(), 5);
    assert_eq!(CliError::SignatureRefused.exit_code(), 6);
    assert_eq!(CliError::OperatorPubkeyMismatch.exit_code(), 7);
    assert_eq!(CliError::PublisherPubkeyMismatch.exit_code(), 7);
    assert_eq!(CliError::SerialRollback { previous: 1, current: 1 }.exit_code(), 8);
}

#[test]
fn messages() {
    assert_eq!(CliError::Io("denied".into()).message(), "io: denied");
    assert_eq!(CliError::Json("bad".into()).message(), "json: bad");
    assert_eq!(
        CliError::BadHexLen { field: "capsule_id", expected: 32, got: 31 }.message(),
        "capsule_id: expected 32 hex bytes, got 31"
    );
    assert_eq!(
        CliError::UnknownEnum { field: "price.kind", value: "gratis \"x\"".into() }.message(),
        "price.kind: unknown value \"gratis \\\"x\\\"\""
    );
    assert_eq!(CliError::KeyError("k".into()).message(), "key: k");
    assert_eq!(CliError::DecodeFailed("d".into()).message(), "decode: d");
    assert_eq!(CliError::SignatureRefused.message(), "signature did not verify against pubkey");
    assert_eq!(
        CliError::OperatorPubkeyMismatch.message(),
        "embedded operator_pubkey does not match supplied pubkey"
    );
    assert_eq!(
        CliError::PublisherPubkeyMismatch.message(),
        "listing publisher_pubkey does not match signing key"
    );
    assert_eq!(
        CliError::SerialRollback { previous: 10, current: 9 }.message(),
        "serial rollback: previous=10 current=9"
    );
}
