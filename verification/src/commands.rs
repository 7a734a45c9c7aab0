//! The decisions of the tool's subcommands: which subcommand runs with
//! which flags, where the operator key comes from, the operator-key
//! crosscheck, the monotonic-serial guard, the verdict on a decoded
//! blob, and which release a publisher signature goes to.

use vstd::prelude::*;

use crate::abi::{strings_view, MarketplaceIndex, MarketplaceIndexModel};
use crate::args::{parse_flags, Flags};
use crate::error::{CliError, ErrorModel};
use crate::hexcodec::{hex_encode_spec, lemma_hex_roundtrip};
use crate::json::decode::{from_index, index_json_spec};
use crate::json::encode::{hex32_spec, index_spec, outcome, to_index};
use crate::schema::IndexJson;
use crate::keys::{ed25519_accepts, parse_pubkey, verify_signature};
use crate::text::{concat2, decimal, parse_u64, parse_unsigned, str_eq, u64_to_decimal};

verus! {

/// The subcommands.
#[derive(Debug, Clone, Copy, PartialEq, Eq, Structural)]
pub enum Command {
    Encode,
    Sign,
    Verify,
    Inspect,
    Keygen,
    /// Print the usage text.
    Usage,
}

pub open spec fn command_of(name: Seq<char>) -> Option<Command> {
    if name == "encode"@ {
        Some(Command::Encode)
    } else if name == "sign"@ {
        Some(Command::Sign)
    } else if name == "verify"@ {
        Some(Command::Verify)
    } else if name == "inspect"@ {
        Some(Command::Inspect)
    } else if name == "keygen"@ {
        Some(Command::Keygen)
    } else if name.len() == 0 || name == "help"@ || name == "--help"@ || name == "-h"@ {
        Some(Command::Usage)
    } else {
        None
    }
}

/// The first argument names the subcommand (none means usage); the
/// rest are its flags, which are read first.
pub open spec fn dispatch_spec(args: Seq<Seq<char>>) -> Result<
    (Command, Map<Seq<char>, Seq<char>>),
    ErrorModel,
> {
    let name = if args.len() > 0 { args[0] } else { Seq::empty() };
    let rest = if args.len() > 0 { args.skip(1) } else { args };
    match parse_flags(rest) {
        Err(m) => Err(ErrorModel::Json(m)),
        Ok(flags) => match command_of(name) {
            Some(c) => Ok((c, flags)),
            None => Err(ErrorModel::Json("unknown subcommand: "@ + name)),
        },
    }
}

/// Picks the subcommand and reads its flags.
pub fn dispatch(args: &[String]) -> (r: Result<(Command, Flags), CliError>)
    ensures
        match r {
            Ok((c, f)) => dispatch_spec(strings_view(args@)) == Ok::<
                (Command, Map<Seq<char>, Seq<char>>),
                ErrorModel,
            >((c, f@)),
            Err(e) => dispatch_spec(strings_view(args@)) == Err::<
                (Command, Map<Seq<char>, Seq<char>>),
                ErrorModel,
            >(e@),
        },
{
    let cmd: &str = if args.len() > 0 {
        args[0].as_str()
    } else {
        ""
    };
    let rest: &[String] = if args.len() == 0 {
        args
    } else {
        &args[1..args.len()]
    };
    assert(strings_view(rest@) =~= (if args@.len() > 0 {
        strings_view(args@).skip(1)
    } else {
        strings_view(args@)
    }));
    proof {
        reveal_strlit("");
        if args@.len() > 0 {
            assert(strings_view(args@)[0] == args@[0]@);
        }
        assert(cmd@ == (if args@.len() > 0 { strings_view(args@)[0] } else { Seq::<char>::empty() }));
    }
    let flags = match Flags::parse(rest) {
        Ok(f) => f,
        Err(m) => return Err(CliError::Json(m)),
    };
    let c = if str_eq(cmd, "encode") {
        Command::Encode
    } else if str_eq(cmd, "sign") {
        Command::Sign
    } else if str_eq(cmd, "verify") {
        Command::Verify
    } else if str_eq(cmd, "inspect") {
        Command::Inspect
    } else if str_eq(cmd, "keygen") {
        Command::Keygen
    } else if cmd.is_empty() || str_eq(cmd, "help") || str_eq(cmd, "--help") || str_eq(cmd, "-h") {
        Command::Usage
    } else {
        return Err(CliError::Json(concat2("unknown subcommand: ", cmd)));
    };
    Ok((c, flags))
}

/// The `--previous-serial` guard: with the flag, `current` must be a
/// number strictly above the one it gives.
pub open spec fn monotonic_spec(current: u64, flags: Map<Seq<char>, Seq<char>>) -> Result<(), ErrorModel> {
    if !flags.contains_key("previous-serial"@) {
        Ok(())
    } else {
        let prev = flags["previous-serial"@];
        match parse_unsigned(prev, u64::MAX as nat) {
            None => Err(ErrorModel::Json("--previous-serial: not a u64: "@ + prev)),
            Some(p) => if current <= p {
                Err(ErrorModel::SerialRollback { previous: p, current: current as nat })
            } else {
                Ok(())
            },
        }
    }
}

/// Refuses a serial at or below `--previous-serial`, so that a CI step
/// can refuse a downgrade without trusting the file system.
pub fn enforce_monotonic(current: u64, flags: &Flags) -> (r: Result<(), CliError>)
    ensures
        outcome(r) == monotonic_spec(current, flags@),
{
    let prev_str = match flags.optional("previous-serial") {
        None => return Ok(()),
        Some(p) => p,
    };
    let prev = match parse_u64(prev_str) {
        None => return Err(CliError::Json(concat2("--previous-serial: not a u64: ", prev_str))),
        Some(p) => p,
    };
    if current <= prev {
        return Err(CliError::SerialRollback { previous: prev, current });
    }
    Ok(())
}

/// Where the operator seed is read from.
#[derive(Debug)]
pub enum KeySource {
    /// A file holding the 32 raw seed bytes.
    File(String),
    /// An environment variable holding the seed in hex.
    Env(String),
}

pub enum KeySourceModel {
    File(Seq<char>),
    Env(Seq<char>),
}

impl View for KeySource {
    type V = KeySourceModel;

    open spec fn view(&self) -> KeySourceModel {
        match self {
            KeySource::File(p) => KeySourceModel::File(p@),
            KeySource::Env(v) => KeySourceModel::Env(v@),
        }
    }
}

/// At most one of `--key-file` and `--key-env` may be given; with
/// neither, the seed is read from the `NONOS_OPERATOR_SEED` environment
/// variable.
pub open spec fn key_source_spec(flags: Map<Seq<char>, Seq<char>>) -> Result<KeySourceModel, ErrorModel> {
    let file = flags.contains_key("key-file"@);
    let env = flags.contains_key("key-env"@);
    if file && env {
        Err(ErrorModel::KeyError("specify exactly one of --key-file or --key-env"@))
    } else if file {
        Ok(KeySourceModel::File(flags["key-file"@]))
    } else if env {
        Ok(KeySourceModel::Env(flags["key-env"@]))
    } else {
        Ok(KeySourceModel::Env("NONOS_OPERATOR_SEED"@))
    }
}

pub fn select_key_source(flags: &Flags) -> (r: Result<KeySource, CliError>)
    ensures
        outcome(r) == key_source_spec(flags@),
{
    match (flags.optional("key-file"), flags.optional("key-env")) {
        (Some(_), Some(_)) => Err(
            CliError::KeyError(String::from_str("specify exactly one of --key-file or --key-env")),
        ),
        (Some(path), None) => Ok(KeySource::File(String::from_str(path))),
        (None, Some(var)) => Ok(KeySource::Env(String::from_str(var))),
        (None, None) => Ok(KeySource::Env(String::from_str("NONOS_OPERATOR_SEED"))),
    }
}

/// Whether two byte strings are equal.
pub fn bytes_eq(a: &[u8], b: &[u8]) -> (r: bool)
    ensures
        r == (a@ == b@),
{
    if a.len() != b.len() {
        return false;
    }
    let mut i: usize = 0;
    while i < a.len()
        invariant
            a@.len() == b@.len(),
            i <= a@.len(),
            forall|j: int| 0 <= j < i ==> a@[j] == b@[j],
        decreases a@.len() - i,
    {
        if a[i] != b[i] {
            return false;
        }
        i = i + 1;
    }
    assert(a@ =~= b@);
    true
}

/// The `--pubkey` crosscheck of `sign`: when given, it must be the hex
/// of the signing key's public key.
pub open spec fn pubkey_crosscheck_spec(flags: Map<Seq<char>, Seq<char>>, pubkey: Seq<u8>) -> Result<
    (),
    ErrorModel,
> {
    if !flags.contains_key("pubkey"@) {
        Ok(())
    } else {
        match hex32_spec(flags["pubkey"@], "pubkey"@) {
            Err(e) => Err(e),
            Ok(expected) => if expected != pubkey {
                Err(ErrorModel::OperatorPubkeyMismatch)
            } else {
                Ok(())
            },
        }
    }
}

pub fn check_pubkey_crosscheck(flags: &Flags, pubkey: &[u8; 32]) -> (r: Result<(), CliError>)
    ensures
        outcome(r) == pubkey_crosscheck_spec(flags@, pubkey@),
{
    if let Some(expected) = flags.optional("pubkey") {
        let parsed = match parse_pubkey(expected) {
            Ok(p) => p,
            Err(e) => return Err(e),
        };
        if !bytes_eq(parsed.as_slice(), pubkey.as_slice()) {
            return Err(CliError::OperatorPubkeyMismatch);
        }
    }
    Ok(())
}

/// The verdict of `verify` on a decoded blob: its embedded operator
/// key must be the trusted one, its signature 64 bytes that verify over
/// the signed bytes under the trusted key, and its serial must pass the
/// monotonic guard; the first failure is reported.
pub open spec fn decoded_index_spec(
    trust_pubkey: Seq<u8>,
    operator_pubkey: Seq<u8>,
    index_signature: Seq<u8>,
    signed_bytes: Seq<u8>,
    serial: u64,
    flags: Map<Seq<char>, Seq<char>>,
) -> Result<(), ErrorModel> {
    if operator_pubkey != trust_pubkey {
        Err(ErrorModel::OperatorPubkeyMismatch)
    } else if index_signature.len() != 64 {
        Err(
            ErrorModel::DecodeFailed(
                "index_signature: expected 64 bytes, got "@ + decimal(index_signature.len()),
            ),
        )
    } else if !ed25519_accepts(trust_pubkey, signed_bytes, index_signature) {
        Err(ErrorModel::SignatureRefused)
    } else {
        monotonic_spec(serial, flags)
    }
}

pub fn check_decoded_index(
    trust_pubkey: &[u8; 32],
    operator_pubkey: &[u8; 32],
    index_signature: &[u8],
    signed_bytes: &[u8],
    serial: u64,
    flags: &Flags,
) -> (r: Result<(), CliError>)
    ensures
        outcome(r) == decoded_index_spec(
            trust_pubkey@,
            operator_pubkey@,
            index_signature@,
            signed_bytes@,
            serial,
            flags@,
        ),
{
    if !bytes_eq(operator_pubkey.as_slice(), trust_pubkey.as_slice()) {
        return Err(CliError::OperatorPubkeyMismatch);
    }
    if index_signature.len() != 64 {
        let got = u64_to_decimal(index_signature.len() as u64);
        return Err(
            CliError::DecodeFailed(concat2("index_signature: expected 64 bytes, got ", got.as_str())),
        );
    }
    let mut signature = [0u8; 64];
    let mut i: usize = 0;
    while i < 64
        invariant
            index_signature@.len() == 64,
            i <= 64,
            forall|j: int| 0 <= j < i ==> signature@[j] == index_signature@[j],
        decreases 64 - i,
    {
        signature[i] = index_signature[i];
        i = i + 1;
    }
    assert(signature@ =~= index_signature@);
    if !verify_signature(trust_pubkey, signed_bytes, &signature) {
        return Err(CliError::SignatureRefused);
    }
    enforce_monotonic(serial, flags)
}

/// A blob that the trusted operator signed, carrying that operator's key
/// and a serial that passes the guard, is accepted.
pub proof fn law_operator_signed_blob_verifies(
    trust_pubkey: Seq<u8>,
    signed_bytes: Seq<u8>,
    signature: Seq<u8>,
    serial: u64,
    flags: Map<Seq<char>, Seq<char>>,
)
    requires
        signature.len() == 64,
        ed25519_accepts(trust_pubkey, signed_bytes, signature),
        monotonic_spec(serial, flags) is Ok,
    ensures
        decoded_index_spec(trust_pubkey, trust_pubkey, signature, signed_bytes, serial, flags) is Ok,
{
}

/// A serial that passes the guard is strictly above the previous one.
pub proof fn law_accepted_serial_increases(current: u64, flags: Map<Seq<char>, Seq<char>>)
    requires
        monotonic_spec(current, flags) is Ok,
        flags.contains_key("previous-serial"@),
    ensures
        parse_unsigned(flags["previous-serial"@], u64::MAX as nat) matches Some(p) && p < current,
{
}

/// The public key that `sign` and `keygen` print (lowercase hex) is
/// accepted back as `--pubkey`: the crosscheck passes for the key itself.
pub proof fn law_printed_pubkey_passes_crosscheck(flags: Map<Seq<char>, Seq<char>>, pubkey: Seq<u8>)
    requires
        pubkey.len() == 32,
        flags.contains_key("pubkey"@) ==> flags["pubkey"@] == hex_encode_spec(pubkey),
    ensures
        pubkey_crosscheck_spec(flags, pubkey) == Ok::<(), ErrorModel>(()),
{
    lemma_hex_roundtrip(pubkey);
}

/// What `sign` writes once the index it read passes every check: the
/// canonical index to encode and sign, and, with `--json-out`, the path
/// and the normalised JSON to write there.
pub struct SignPlan {
    pub index: MarketplaceIndex,
    pub normalized_json: Option<(String, IndexJson)>,
}

/// The checks `sign` makes on the index it read, before it writes
/// anything: the serial guard first, then the projection under the
/// operator key. Only a plan that passes both is written.
pub fn plan_sign(flags: &Flags, pubkey: &[u8; 32], json: &IndexJson) -> (r: Result<SignPlan, CliError>)
    ensures
        match r {
            Ok(p) => {
                &&& monotonic_spec(json.serial, flags@) is Ok
                &&& index_spec(json@, pubkey@) == Ok::<MarketplaceIndexModel, ErrorModel>(p.index@)
                &&& match p.normalized_json {
                    Some((path, nj)) => flags@.contains_key("json-out"@) && path@ == flags@["json-out"@]
                        && nj@ == index_json_spec(p.index@),
                    None => !flags@.contains_key("json-out"@),
                }
            },
            Err(e) => match monotonic_spec(json.serial, flags@) {
                Err(x) => e@ == x,
                Ok(_) => index_spec(json@, pubkey@) == Err::<MarketplaceIndexModel, ErrorModel>(e@),
            },
        },
{
    match enforce_monotonic(json.serial, flags) {
        Ok(()) => {},
        Err(e) => return Err(e),
    }
    let index = match to_index(json, *pubkey) {
        Ok(i) => i,
        Err(e) => return Err(e),
    };
    let normalized_json = match flags.optional("json-out") {
        Some(path) => Some((String::from_str(path), from_index(&index))),
        None => None,
    };
    Ok(SignPlan { index, normalized_json })
}

proof fn reveal_command_words()
    ensures
        "encode"@.len() == 6,
        "sign"@.len() == 4,
        "verify"@.len() == 6,
        "inspect"@.len() == 7,
        "keygen"@.len() == 6,
        "help"@.len() == 4,
        "--help"@.len() == 6,
        "-h"@.len() == 2,
        "encode"@[0] == 'e',
        "verify"@[0] == 'v',
        "keygen"@[0] == 'k',
        "--help"@[0] == '-',
        "sign"@[0] == 's',
        "help"@[0] == 'h',
{
    reveal_strlit("encode");
    reveal_strlit("sign");
    reveal_strlit("verify");
    reveal_strlit("inspect");
    reveal_strlit("keygen");
    reveal_strlit("help");
    reveal_strlit("--help");
    reveal_strlit("-h");
}

/// The subcommand that runs is the one the first argument names:
/// `encode`, `sign`, `verify`, `inspect` and `keygen` each run their own
/// subcommand; no argument, an empty one, `help`, `--help` or `-h` print
/// the usage; the flags are those of the remaining arguments. Any other
/// first word, once the flags read, is refused.
pub proof fn law_dispatch_runs_the_named_subcommand(args: Seq<Seq<char>>)
    ensures
        dispatch_spec(args) matches Ok((c, f)) ==> {
            let w = if args.len() > 0 { args[0] } else { Seq::empty() };
            &&& (c == Command::Encode <==> w == "encode"@)
            &&& (c == Command::Sign <==> w == "sign"@)
            &&& (c == Command::Verify <==> w == "verify"@)
            &&& (c == Command::Inspect <==> w == "inspect"@)
            &&& (c == Command::Keygen <==> w == "keygen"@)
            &&& (c == Command::Usage <==> (w.len() == 0 || w == "help"@ || w == "--help"@ || w
                == "-h"@))
            &&& parse_flags(if args.len() > 0 { args.skip(1) } else { args }) == Ok::<
                Map<Seq<char>, Seq<char>>,
                Seq<char>,
            >(f)
        },
        ({
            let w = if args.len() > 0 { args[0] } else { Seq::empty() };
            parse_flags(if args.len() > 0 { args.skip(1) } else { args }) is Ok && (w == "encode"@ || w
                == "sign"@ || w == "verify"@ || w == "inspect"@ || w == "keygen"@ || w.len() == 0 || w
                == "help"@ || w == "--help"@ || w == "-h"@)
        }) <==> dispatch_spec(args) is Ok,
{
    reveal_command_words();
}

/// The serial guard: without `--previous-serial` every serial passes;
/// with it, a serial passes exactly when it is strictly above the number
/// the flag gives, and a refused one is reported with both numbers; a
/// flag that is no `u64` is refused.
pub proof fn law_serial_guard(current: u64, flags: Map<Seq<char>, Seq<char>>)
    ensures
        !flags.contains_key("previous-serial"@) ==> monotonic_spec(current, flags) is Ok,
        flags.contains_key("previous-serial"@) ==> match parse_unsigned(
            flags["previous-serial"@],
            u64::MAX as nat,
        ) {
            Some(p) => (monotonic_spec(current, flags) is Ok <==> current > p) && (current <= p
                ==> monotonic_spec(current, flags) == Err::<(), ErrorModel>(
                ErrorModel::SerialRollback { previous: p, current: current as nat },
            )),
            None => monotonic_spec(current, flags) matches Err(ErrorModel::Json(_)),
        },
{
}

/// The `--pubkey` crosscheck passes exactly when the flag is absent or
/// its hex, in either case, decodes to the signing key's bytes.
pub proof fn law_crosscheck_accepts_exactly_the_key(flags: Map<Seq<char>, Seq<char>>, pubkey: Seq<u8>)
    requires
        pubkey.len() == 32,
    ensures
        pubkey_crosscheck_spec(flags, pubkey) is Ok <==> (!flags.contains_key("pubkey"@)
            || crate::hexcodec::hex_decode_str(flags["pubkey"@]) == Ok::<
            Seq<u8>,
            crate::hexcodec::HexError,
        >(pubkey)),
{
}

/// `verify` accepts a decoded blob exactly when its operator key is the
/// trusted one, its signature is 64 bytes that the trusted key accepts
/// over the signed bytes, and its serial passes the guard.
pub proof fn law_verify_accepts_exactly(
    trust_pubkey: Seq<u8>,
    operator_pubkey: Seq<u8>,
    index_signature: Seq<u8>,
    signed_bytes: Seq<u8>,
    serial: u64,
    flags: Map<Seq<char>, Seq<char>>,
)
    ensures
        decoded_index_spec(trust_pubkey, operator_pubkey, index_signature, signed_bytes, serial, flags)
            is Ok <==> {
            &&& operator_pubkey == trust_pubkey
            &&& index_signature.len() == 64
            &&& ed25519_accepts(trust_pubkey, signed_bytes, index_signature)
            &&& monotonic_spec(serial, flags) is Ok
        },
{
}

/// The seed comes from the file `--key-file` names, or the variable
/// `--key-env` names, or `NONOS_OPERATOR_SEED` when neither is given;
/// both at once are refused.
pub proof fn law_key_source(flags: Map<Seq<char>, Seq<char>>)
    ensures
        flags.contains_key("key-file"@) && flags.contains_key("key-env"@) ==> key_source_spec(flags)
            matches Err(ErrorModel::KeyError(_)),
        flags.contains_key("key-file"@) && !flags.contains_key("key-env"@) ==> key_source_spec(flags)
            == Ok::<KeySourceModel, ErrorModel>(KeySourceModel::File(flags["key-file"@])),
        !flags.contains_key("key-file"@) && flags.contains_key("key-env"@) ==> key_source_spec(flags)
            == Ok::<KeySourceModel, ErrorModel>(KeySourceModel::Env(flags["key-env"@])),
        !flags.contains_key("key-file"@) && !flags.contains_key("key-env"@) ==> key_source_spec(flags)
            == Ok::<KeySourceModel, ErrorModel>(KeySourceModel::Env("NONOS_OPERATOR_SEED"@)),
{
}

} // verus!
