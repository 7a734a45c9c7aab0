//! The error type of the tool. Variants map to distinct exit codes so
//! a caller (build script, CI job, deploy script) can tell a malformed
//! input from a key-handling failure from a signature verdict.

use vstd::prelude::*;

use crate::text::{concat2, concat3, decimal, str_debug, str_debug_text, u64_to_decimal};

verus! {

#[derive(Debug)]
pub enum CliError {
    /// I/O failure reading or writing a file; holds the I/O error's text.
    Io(String),
    /// JSON input failed to parse or did not match the schema.
    Json(String),
    /// Hex-decoded field had the wrong length.
    BadHexLen { field: &'static str, expected: usize, got: usize },
    /// Unknown enum string in JSON input.
    UnknownEnum { field: &'static str, value: String },
    /// Operator key file or env var missing or malformed.
    KeyError(String),
    /// Binary blob did not decode against the marketplace codec.
    DecodeFailed(String),
    /// Signature did not verify against the supplied pubkey.
    SignatureRefused,
    /// Embedded operator pubkey did not match the externally-supplied
    /// trust pubkey.
    OperatorPubkeyMismatch,
    /// Listing publisher pubkey did not match the signing key.
    PublisherPubkeyMismatch,
    /// Index serial is at or below the previous-serial argument.
    SerialRollback { previous: u64, current: u64 },
}

/// The mathematical value of a [`CliError`]: texts as character sequences.
pub enum ErrorModel {
    Io(Seq<char>),
    Json(Seq<char>),
    BadHexLen { field: Seq<char>, expected: nat, got: nat },
    UnknownEnum { field: Seq<char>, value: Seq<char> },
    KeyError(Seq<char>),
    DecodeFailed(Seq<char>),
    SignatureRefused,
    OperatorPubkeyMismatch,
    PublisherPubkeyMismatch,
    SerialRollback { previous: nat, current: nat },
}

impl View for CliError {
    type V = ErrorModel;

    open spec fn view(&self) -> ErrorModel {
        match self {
            CliError::Io(s) => ErrorModel::Io(s@),
            CliError::Json(s) => ErrorModel::Json(s@),
            CliError::BadHexLen { field, expected, got } => ErrorModel::BadHexLen {
                field: field@,
                expected: *expected as nat,
                got: *got as nat,
            },
            CliError::UnknownEnum { field, value } => ErrorModel::UnknownEnum {
                field: field@,
                value: value@,
            },
            CliError::KeyError(s) => ErrorModel::KeyError(s@),
            CliError::DecodeFailed(s) => ErrorModel::DecodeFailed(s@),
            CliError::SignatureRefused => ErrorModel::SignatureRefused,
            CliError::OperatorPubkeyMismatch => ErrorModel::OperatorPubkeyMismatch,
            CliError::PublisherPubkeyMismatch => ErrorModel::PublisherPubkeyMismatch,
            CliError::SerialRollback { previous, current } => ErrorModel::SerialRollback {
                previous: *previous as nat,
                current: *current as nat,
            },
        }
    }
}

/// The process exit code of each kind of failure.
pub open spec fn exit_code_of(e: ErrorModel) -> i32 {
    match e {
        ErrorModel::Io(_) => 2,
        ErrorModel::Json(_) | ErrorModel::UnknownEnum { .. } | ErrorModel::BadHexLen { .. } => 3,
        ErrorModel::KeyError(_) => 4,
        ErrorModel::DecodeFailed(_) => 5,
        ErrorModel::SignatureRefused => 6,
        ErrorModel::OperatorPubkeyMismatch | ErrorModel::PublisherPubkeyMismatch => 7,
        ErrorModel::SerialRollback { .. } => 8,
    }
}

/// The one-line description of each failure.
pub open spec fn message_of(e: ErrorModel) -> Seq<char> {
    match e {
        ErrorModel::Io(s) => "io: "@ + s,
        ErrorModel::Json(s) => "json: "@ + s,
        ErrorModel::BadHexLen { field, expected, got } => field + ": expected "@ + decimal(expected)
            + " hex bytes, got "@ + decimal(got),
        ErrorModel::UnknownEnum { field, value } => field + ": unknown value "@ + str_debug_text(
            value,
        ),
        ErrorModel::KeyError(s) => "key: "@ + s,
        ErrorModel::DecodeFailed(s) => "decode: "@ + s,
        ErrorModel::SignatureRefused => "signature did not verify against pubkey"@,
        ErrorModel::OperatorPubkeyMismatch => "embedded operator_pubkey does not match supplied pubkey"@,
        ErrorModel::PublisherPubkeyMismatch => "listing publisher_pubkey does not match signing key"@,
        ErrorModel::SerialRollback { previous, current } => "serial rollback: previous="@ + decimal(
            previous,
        ) + " current="@ + decimal(current),
    }
}

/// Each exit code stands for one kind of failure: 2 for I/O, 3 for
/// malformed input (JSON, an unknown enum spelling, a hex field of the
/// wrong length), 4 for key handling, 5 for an undecodable blob, 6 for a
/// refused signature, 7 for a key mismatch (operator or publisher), 8
/// for a serial rollback.
pub proof fn law_exit_code_kinds(e: ErrorModel)
    ensures
        exit_code_of(e) == 2 <==> e is Io,
        exit_code_of(e) == 3 <==> (e is Json || e is UnknownEnum || e is BadHexLen),
        exit_code_of(e) == 4 <==> e is KeyError,
        exit_code_of(e) == 5 <==> e is DecodeFailed,
        exit_code_of(e) == 6 <==> e is SignatureRefused,
        exit_code_of(e) == 7 <==> (e is OperatorPubkeyMismatch || e is PublisherPubkeyMismatch),
        exit_code_of(e) == 8 <==> e is SerialRollback,
{
}

impl CliError {
    pub fn exit_code(&self) -> (code: i32)
        ensures
            code == exit_code_of(self@),
    {
        match self {
            CliError::Io(_) => 2,
            CliError::Json(_) | CliError::UnknownEnum { .. } | CliError::BadHexLen { .. } => 3,
            CliError::KeyError(_) => 4,
            CliError::DecodeFailed(_) => 5,
            CliError::SignatureRefused => 6,
            CliError::OperatorPubkeyMismatch | CliError::PublisherPubkeyMismatch => 7,
            CliError::SerialRollback { .. } => 8,
        }
    }

    /// The text that the tool prints for this error.
    pub fn message(&self) -> (m: String)
        ensures
            m@ == message_of(self@),
    {
        match self {
            CliError::Io(s) => concat2("io: ", s.as_str()),
            CliError::Json(s) => concat2("json: ", s.as_str()),
            CliError::BadHexLen { field, expected, got } => {
                let e = u64_to_decimal(*expected as u64);
                let g = u64_to_decimal(*got as u64);
                let mut m = concat3(field, ": expected ", e.as_str());
                m.append(" hex bytes, got ");
                m.append(g.as_str());
                m
            },
            CliError::UnknownEnum { field, value } => {
                let d = str_debug(value.as_str());
                concat3(field, ": unknown value ", d.as_str())
            },
            CliError::KeyError(s) => concat2("key: ", s.as_str()),
            CliError::DecodeFailed(s) => concat2("decode: ", s.as_str()),
            CliError::SignatureRefused => String::from_str("signature did not verify against pubkey"),
            CliError::OperatorPubkeyMismatch => String::from_str(
                "embedded operator_pubkey does not match supplied pubkey",
            ),
            CliError::PublisherPubkeyMismatch => String::from_str(
                "listing publisher_pubkey does not match signing key",
            ),
            CliError::SerialRollback { previous, current } => {
                let p = u64_to_decimal(*previous);
                let c = u64_to_decimal(*current);
                let mut m = concat2("serial rollback: previous=", p.as_str());
                m.append(" current=");
                m.append(c.as_str());
                m
            },
        }
    }
}

} // verus!
