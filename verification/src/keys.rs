//! Operator key handling, through `ed25519_dalek`. The seed is held for
//! the duration of a call and never handed out: public keys and
//! signatures are the only things derived from it that leave.

use vstd::prelude::*;

use ed25519_dalek::{Signer, Verifier};

use crate::error::{CliError, ErrorModel};
use crate::hexcodec::{hex_decode, hex_decode_str, hex_error_text};
use crate::json::encode::{hex32, hex32_spec, outcome};
use crate::text::{concat3, decimal, trim, trim_str, u64_to_decimal};

verus! {

/// The Ed25519 public key of a 32-byte secret seed (RFC 8032), as
/// `SigningKey::from_bytes(seed).verifying_key().to_bytes()` gives it.
pub uninterp spec fn ed25519_public_key(seed: Seq<u8>) -> Seq<u8>;

/// The Ed25519 signature of `msg` under a 32-byte secret seed, as
/// `SigningKey::from_bytes(seed).sign(msg).to_bytes()` gives it.
pub uninterp spec fn ed25519_signature(seed: Seq<u8>, msg: Seq<u8>) -> Seq<u8>;

/// Whether `VerifyingKey::from_bytes(pubkey)` decodes and then accepts
/// `sig` on `msg` (`Verifier::verify`).
pub uninterp spec fn ed25519_accepts(pubkey: Seq<u8>, msg: Seq<u8>, sig: Seq<u8>) -> bool;

/// `SigningKey::from_bytes(seed).verifying_key().to_bytes()`: the public
/// key of the seed, a function of the seed alone.
#[verifier::external_body]
fn derive_public_key(seed: &[u8; 32]) -> (pk: [u8; 32])
    ensures
        pk@ == ed25519_public_key(seed@),
{
    ed25519_dalek::SigningKey::from_bytes(seed).verifying_key().to_bytes()
}

/// `SigningKey::from_bytes(seed).sign(msg).to_bytes()`. Ed25519 signing
/// is deterministic (the nonce is hashed from the key and the message),
/// so the signature is a function of seed and message; and the
/// seed's own public key accepts it.
#[verifier::external_body]
fn sign_with_seed(seed: &[u8; 32], msg: &[u8]) -> (sig: [u8; 64])
    ensures
        sig@ == ed25519_signature(seed@, msg@),
        ed25519_accepts(ed25519_public_key(seed@), msg@, sig@),
{
    ed25519_dalek::SigningKey::from_bytes(seed).sign(msg).to_bytes()
}

/// Checks an Ed25519 signature: `VerifyingKey::from_bytes(pubkey)`, then
/// `Verifier::verify`; a public key that does not decode accepts nothing.
#[verifier::external_body]
pub fn verify_signature(pubkey: &[u8; 32], msg: &[u8], sig: &[u8; 64]) -> (ok: bool)
    ensures
        ok == ed25519_accepts(pubkey@, msg@, sig@),
{
    match ed25519_dalek::VerifyingKey::from_bytes(pubkey) {
        Ok(vk) => vk.verify(msg, &ed25519_dalek::Signature::from_bytes(sig)).is_ok(),
        Err(_) => false,
    }
}

/// Reads a 32-byte public key written in hex.
pub fn parse_pubkey(s: &str) -> (r: Result<[u8; 32], CliError>)
    ensures
        outcome(r) == hex32_spec(s@, "pubkey"@),
{
    hex32(s, "pubkey")
}

/// The operator's signing key: a 32-byte Ed25519 seed.
pub struct OperatorKey {
    seed: [u8; 32],
}

impl View for OperatorKey {
    type V = Seq<u8>;

    /// The seed.
    closed spec fn view(&self) -> Seq<u8> {
        self.seed@
    }
}

/// The failure for a seed of the wrong length read from `origin`.
pub open spec fn seed_length_error(origin: Seq<char>, got: nat) -> ErrorModel {
    ErrorModel::KeyError(origin + ": expected 32-byte seed, got "@ + decimal(got))
}

/// A key from raw seed bytes read from `origin`: anything but 32 bytes
/// is refused.
pub open spec fn seed_spec(origin: Seq<char>, bytes: Seq<u8>) -> Result<Seq<u8>, ErrorModel> {
    if bytes.len() != 32 {
        Err(seed_length_error(origin, bytes.len()))
    } else {
        Ok(bytes)
    }
}

/// A key from the text of an environment variable `var`: unset, not hex
/// after trimming white space, or of the wrong length are refused.
pub open spec fn env_key_spec(var: Seq<char>, value: Option<Seq<char>>) -> Result<Seq<u8>, ErrorModel> {
    match value {
        None => Err(ErrorModel::KeyError("env var "@ + var + " not set"@)),
        Some(v) => match hex_decode_str(trim(v)) {
            Err(e) => Err(ErrorModel::KeyError("env var "@ + var + ": hex: "@ + hex_error_text(e))),
            Ok(b) => seed_spec(var, b),
        },
    }
}

/// A key is read only from exactly 32 seed bytes, which become the
/// key; from an environment variable, those bytes are the hex of its
/// value with surrounding white space dropped, and an unset variable is
/// refused.
pub proof fn law_key_is_the_given_seed(origin: Seq<char>, bytes: Seq<u8>, var: Seq<char>, value: Option<Seq<char>>)
    ensures
        seed_spec(origin, bytes) is Ok <==> bytes.len() == 32,
        seed_spec(origin, bytes) matches Ok(k) ==> k == bytes,
        value is None ==> env_key_spec(var, value) matches Err(ErrorModel::KeyError(_)),
        env_key_spec(var, value) matches Ok(k) ==> k.len() == 32 && value is Some
            && hex_decode_str(trim(value->Some_0)) == Ok::<Seq<u8>, crate::hexcodec::HexError>(k),
{
}

impl OperatorKey {
    /// A key from raw seed bytes that came from `origin`.
    pub fn from_seed_bytes(bytes: &[u8], origin: &str) -> (r: Result<Self, CliError>)
        ensures
            outcome(r) == seed_spec(origin@, bytes@),
    {
        if bytes.len() != 32 {
            let got = u64_to_decimal(bytes.len() as u64);
            return Err(CliError::KeyError(concat3(origin, ": expected 32-byte seed, got ", got.as_str())));
        }
        let mut seed = [0u8; 32];
        let mut i: usize = 0;
        while i < 32
            invariant
                bytes@.len() == 32,
                i <= 32,
                forall|j: int| 0 <= j < i ==> seed@[j] == bytes@[j],
            decreases 32 - i,
        {
            seed[i] = bytes[i];
            i = i + 1;
        }
        assert(seed@ =~= bytes@);
        Ok(OperatorKey { seed })
    }

    /// A key from the raw bytes of a key file.
    pub fn from_file(raw: &[u8]) -> (r: Result<Self, CliError>)
        ensures
            outcome(r) == seed_spec("key file"@, raw@),
    {
        Self::from_seed_bytes(raw, "key file")
    }

    /// A key from the value of environment variable `var` (`None` when
    /// it is not set): 32 bytes in hex, white space around it ignored.
    pub fn from_env(var: &str, value: Option<&str>) -> (r: Result<Self, CliError>)
        ensures
            outcome(r) == env_key_spec(var@, match value {
                Some(v) => Some(v@),
                None => None,
            }),
    {
        match value {
            None => Err(CliError::KeyError(concat3("env var ", var, " not set"))),
            Some(v) => match hex_decode(trim_str(v)) {
                Err(e) => {
                    let t = e.text();
                    let mut m = concat3("env var ", var, ": hex: ");
                    m.append(t.as_str());
                    Err(CliError::KeyError(m))
                },
                Ok(bytes) => Self::from_seed_bytes(bytes.as_slice(), var),
            },
        }
    }

    /// The key's Ed25519 public key.
    pub fn pubkey_bytes(&self) -> (pk: [u8; 32])
        ensures
            pk@ == ed25519_public_key(self@),
    {
        derive_public_key(&self.seed)
    }

    /// Signs `msg`; the signature verifies under [`Self::pubkey_bytes`].
    pub fn sign(&self, msg: &[u8]) -> (sig: [u8; 64])
        ensures
            sig@ == ed25519_signature(self@, msg@),
            ed25519_accepts(ed25519_public_key(self@), msg@, sig@),
    {
        sign_with_seed(&self.seed, msg)
    }
}

} // verus!
