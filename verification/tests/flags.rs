use marketplace_index::args::Flags;
use marketplace_index::commands::{
    dispatch, enforce_monotonic, select_key_source, check_pubkey_crosscheck, Command, KeySource,
};
use marketplace_index::commands::plan_sign;
use marketplace_index::error::CliError;
use marketplace_index::schema::IndexJson;

fn words(ws: &[&str]) -> Vec<String> {
    ws.iter().map(|w| w.to_string()).collect()
}

#[test]
fn parse_reads_pairs_and_last_value_wins() {
    let f = Flags::parse(&words(&["--in", "a.json", "--out", "b.bin", "--in", "c.json"])).unwrap();
    assert_eq!(f.require("in").unwrap(), "c.json");
    assert_eq!(f.require("out").unwrap(), "b.bin");
    assert_eq!(f.optional("pubkey"), None);
}

#[test]
fn parse_refuses_positional_argument() {
    let e = Flags::parse(&words(&["in", "x"])).err().unwrap();
    assert_eq!(e, "unexpected positional argument: in");
}

#[test]
fn parse_refuses_flag_without_value() {
    let e = Flags::parse(&words(&["--in", "x", "--out"])).err().unwrap();
    assert_eq!(e, "flag --out expects a value");
}

#[test]
fn require_names_missing_flag() {
    let f = Flags::parse(&words(&[])).unwrap();
    assert_eq!(f.require("in").err().unwrap(), "missing required flag --in");
}

#[test]
fn dispatch_picks_subcommand() {
    let (c, f) = dispatch(&words(&["verify", "--in", "blob", "--pubkey", "ab"])).unwrap();
    assert_eq!(c, Command::Verify);
    assert_eq!(f.require("pubkey").unwrap(), "ab");
    let (c, _) = dispatch(&words(&[])).unwrap();
    assert_eq!(c, Command::Usage);
    let (c, _) = dispatch(&words(&["-h"])).unwrap();
    assert_eq!(c, Command::Usage);
    let (c, _) = dispatch(&words(&["keygen", "--out", "seed"])).unwrap();
    assert_eq!(c, Command::Keygen);
}

#[test]
fn dispatch_refuses_unknown_subcommand() {
    match dispatch(&words(&["frobnicate"])) {
        Err(CliError::Json(m)) => assert_eq!(m, "unknown subcommand: frobnicate"),
        other => panic!("unexpected: {:?}", other.map(|(c, _)| c)),
    }
}

#[test]
fn dispatch_reports_flag_error_before_subcommand() {
    match dispatch(&words(&["frobnicate", "stray"])) {
        Err(CliError::Json(m)) => assert_eq!(m, "unexpected positional argument: stray"),
        other => panic!("unexpected: {:?}", other.map(|(c, _)| c)),
    }
}

#[test]
fn monotonic_guard() {
    let none = Flags::parse(&words(&[])).unwrap();
    assert!(enforce_monotonic(0, &none).is_ok());
    let prev = Flags::parse(&words(&["--previous-serial", "7"])).unwrap();
    assert!(enforce_monotonic(8, &prev).is_ok());
    match enforce_monotonic(7, &prev) {
        Err(CliError::SerialRollback { previous, current }) => {
            assert_eq!((previous, current), (7, 7));
        }
        _ => panic!("expected rollback"),
    }
    let plus = Flags::parse(&words(&["--previous-serial", "+3"])).unwrap();
    assert!(enforce_monotonic(4, &plus).is_ok());
    let bad = Flags::parse(&words(&["--previous-serial", "seven"])).unwrap();
    match enforce_monotonic(8, &bad) {
        Err(CliError::Json(m)) => assert_eq!(m, "--previous-serial: not a u64: seven"),
        _ => panic!("expected json error"),
    }
    let big = Flags::parse(&words(&["--previous-serial", "18446744073709551616"])).unwrap();
    assert!(matches!(enforce_monotonic(8, &big), Err(CliError::Json(_))));
}

#[test]
fn key_source_needs_exactly_one() {
    let f = Flags::parse(&words(&["--key-file", "seed.bin"])).unwrap();
    match select_key_source(&f).unwrap() {
        KeySource::File(p) => assert_eq!(p, "seed.bin"),
        _ => panic!("expected file"),
    }
    let f = Flags::parse(&words(&["--key-env", "NONOS_OPERATOR_SEED"])).unwrap();
    assert!(matches!(select_key_source(&f).unwrap(), KeySource::Env(v) if v == "NONOS_OPERATOR_SEED"));
    let f = Flags::parse(&words(&["--key-env", "A", "--key-file", "B"])).unwrap();
    match select_key_source(&f) {
        Err(CliError::KeyError(m)) => assert_eq!(m, "specify exactly one of --key-file or --key-env"),
        _ => panic!("expected key error"),
    }
    let f = Flags::parse(&words(&[])).unwrap();
    match select_key_source(&f).unwrap() {
        KeySource::Env(v) => assert_eq!(v, "NONOS_OPERATOR_SEED"),
        _ => panic!("expected the default environment variable"),
    }
}

#[test]
fn pubkey_crosscheck() {
    let key = [7u8; 32];
    let none = Flags::parse(&words(&[])).unwrap();
    assert!(check_pubkey_crosscheck(&none, &key).is_ok());
    let same = Flags::parse(&words(&["--pubkey", &"07".repeat(32)])).unwrap();
    assert!(check_pubkey_crosscheck(&same, &key).is_ok());
    let other = Flags::parse(&words(&["--pubkey", &"08".repeat(32)])).unwrap();
    assert!(matches!(check_pubkey_crosscheck(&other, &key), Err(CliError::OperatorPubkeyMismatch)));
    let short = Flags::parse(&words(&["--pubkey", "0707"])).unwrap();
    match check_pubkey_crosscheck(&short, &key) {
        Err(CliError::BadHexLen { field, expected, got }) => {
            assert_eq!((field, expected, got), ("pubkey", 32, 2));
        }
        _ => panic!("expected bad length"),
    }
}

#[test]
fn last_occurrence_wins_across_the_whole_list() {
    let f = Flags::parse(&words(&[
        "--a", "1", "--b", "2", "--a", "3", "--c", "--a", "--a", "4", "--b", "5",
    ]))
    .unwrap();
    assert_eq!(f.optional("a"), Some("4"));
    assert_eq!(f.optional("b"), Some("5"));
    assert_eq!(f.optional("c"), Some("--a"));
    assert_eq!(f.optional("1"), None);
}

fn empty_json(serial: u64) -> IndexJson {
    IndexJson {
        schema_version: 1,
        operator_id: "op".into(),
        published_at_ms: 0,
        serial,
        entries: vec![],
    }
}

#[test]
fn plan_sign_checks_before_anything_is_written() {
    let plain = Flags::parse(&words(&[])).unwrap();
    let plan = plan_sign(&plain, &[3u8; 32], &empty_json(5)).unwrap();
    assert_eq!(plan.index.serial, 5);
    assert_eq!(plan.index.operator_pubkey, [3u8; 32]);
    assert!(plan.normalized_json.is_none());
    let out = Flags::parse(&words(&["--json-out", "n.json", "--previous-serial", "4"])).unwrap();
    let plan = plan_sign(&out, &[3u8; 32], &empty_json(5)).unwrap();
    let (path, j) = plan.normalized_json.unwrap();
    assert_eq!(path, "n.json");
    assert_eq!(j.serial, 5);
    let stale = Flags::parse(&words(&["--json-out", "n.json", "--previous-serial", "5"])).unwrap();
    assert!(matches!(
        plan_sign(&stale, &[3u8; 32], &empty_json(5)),
        Err(CliError::SerialRollback { previous: 5, current: 5 })
    ));
}
