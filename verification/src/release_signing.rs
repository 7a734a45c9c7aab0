//! Attaching a publisher signature to one release of the editable JSON
//! index. Operator signing stays a separate step: publisher authority
//! and marketplace-operator authority remain distinct.

use vstd::prelude::*;

use crate::abi::{CapsuleRelease, CapsuleReleaseModel};
use crate::error::{CliError, ErrorModel};
use crate::hexcodec::{hex_encode, hex_encode_spec};
use crate::json::encode::{clone_strings, hex32_spec, release_spec, to_release};
use crate::keys::parse_pubkey;
use crate::schema::{
    EntryJson, EntryJsonModel, IndexJson, IndexJsonModel, ReleaseJson, ReleaseJsonModel,
    ValidationJson,
};
use crate::text::{concat2, str_eq};

verus! {

/// The first entry at or after `i` with the given listing id.
pub open spec fn listing_from(es: Seq<EntryJsonModel>, id: Seq<char>, i: int) -> Option<int>
    decreases es.len() - i,
{
    if i < 0 || i >= es.len() {
        None
    } else if es[i].listing_id == id {
        Some(i)
    } else {
        listing_from(es, id, i + 1)
    }
}

/// The first release at or after `i` with the given release id.
pub open spec fn release_from(rs: Seq<ReleaseJsonModel>, id: Seq<char>, i: int) -> Option<int>
    decreases rs.len() - i,
{
    if i < 0 || i >= rs.len() {
        None
    } else if rs[i].release_id == id {
        Some(i)
    } else {
        release_from(rs, id, i + 1)
    }
}

/// A release with its publisher signature replaced by `sig`.
pub open spec fn with_signature(r: ReleaseJsonModel, sig: Seq<char>) -> ReleaseJsonModel {
    ReleaseJsonModel {
        release_id: r.release_id,
        manifest_hash: r.manifest_hash,
        package_hash: r.package_hash,
        package_url: r.package_url,
        publisher_signature: sig,
        supported_arches: r.supported_arches,
        kernel_abi_min: r.kernel_abi_min,
        required_capabilities: r.required_capabilities,
        validation: r.validation,
    }
}

/// Which release a publisher signs: the first listing with the id, whose
/// publisher key must be the signing key's, then its first release with
/// the id, converted to the canonical release with its signature
/// cleared. Gives the two positions and that canonical release.
pub open spec fn release_to_sign_spec(
    j: IndexJsonModel,
    listing_id: Seq<char>,
    release_id: Seq<char>,
    pubkey: Seq<u8>,
) -> Result<(int, int, CapsuleReleaseModel), ErrorModel> {
    match listing_from(j.entries, listing_id, 0) {
        None => Err(ErrorModel::Json("listing not found: "@ + listing_id)),
        Some(ei) => {
            let e = j.entries[ei];
            match hex32_spec(e.publisher_pubkey, "pubkey"@) {
                Err(x) => Err(x),
                Ok(pk) => if pk != pubkey {
                    Err(ErrorModel::PublisherPubkeyMismatch)
                } else {
                    match release_from(e.releases, release_id, 0) {
                        None => Err(ErrorModel::Json("release not found: "@ + release_id)),
                        Some(ri) => match release_spec(with_signature(e.releases[ri], Seq::empty())) {
                            Err(x) => Err(x),
                            Ok(c) => Ok((ei, ri, c)),
                        },
                    }
                },
            }
        },
    }
}

/// The JSON index with the release at (`ei`, `ri`) carrying `sig`.
pub open spec fn signed_index_json(j: IndexJsonModel, ei: int, ri: int, sig: Seq<char>) -> IndexJsonModel {
    let e = j.entries[ei];
    IndexJsonModel {
        schema_version: j.schema_version,
        operator_id: j.operator_id,
        published_at_ms: j.published_at_ms,
        serial: j.serial,
        entries: j.entries.update(
            ei,
            EntryJsonModel {
                listing_id: e.listing_id,
                capsule_id: e.capsule_id,
                name: e.name,
                publisher_name: e.publisher_name,
                publisher_pubkey: e.publisher_pubkey,
                description: e.description,
                price: e.price,
                token: e.token,
                releases: e.releases.update(ri, with_signature(e.releases[ri], sig)),
            },
        ),
    }
}

fn unsigned_copy(r: &ReleaseJson) -> (c: ReleaseJson)
    ensures
        c@ == with_signature(r@, Seq::empty()),
{
    ReleaseJson {
        release_id: r.release_id.clone(),
        manifest_hash: r.manifest_hash.clone(),
        package_hash: r.package_hash.clone(),
        package_url: r.package_url.clone(),
        publisher_signature: String::new(),
        supported_arches: clone_strings(&r.supported_arches),
        kernel_abi_min: r.kernel_abi_min,
        required_capabilities: clone_strings(&r.required_capabilities),
        validation: ValidationJson {
            status: r.validation.status.clone(),
            note: r.validation.note.clone(),
            validator_id: r.validation.validator_id.clone(),
            validated_at_ms: r.validation.validated_at_ms,
        },
    }
}

/// Finds the release that a publisher holding `pubkey` signs, and its
/// canonical form with the signature cleared (whose signing bytes are
/// what the publisher signs).
pub fn find_release_to_sign(
    json: &IndexJson,
    listing_id: &str,
    release_id: &str,
    pubkey: &[u8; 32],
) -> (r: Result<(usize, usize, CapsuleRelease), CliError>)
    ensures
        match r {
            Ok((ei, ri, c)) => release_to_sign_spec(json@, listing_id@, release_id@, pubkey@)
                == Ok::<(int, int, CapsuleReleaseModel), ErrorModel>((ei as int, ri as int, c@)),
            Err(e) => release_to_sign_spec(json@, listing_id@, release_id@, pubkey@) == Err::<
                (int, int, CapsuleReleaseModel),
                ErrorModel,
            >(e@),
        },
{
    let ghost es = json@.entries;
    let mut ei: usize = 0;
    while ei < json.entries.len() && !str_eq(json.entries[ei].listing_id.as_str(), listing_id)
        invariant
            ei <= json.entries@.len(),
            es == json@.entries,
            listing_from(es, listing_id@, 0) == listing_from(es, listing_id@, ei as int),
        decreases json.entries@.len() - ei,
    {
        assert(es[ei as int] == json.entries@[ei as int]@);
        ei = ei + 1;
    }
    if ei >= json.entries.len() {
        return Err(CliError::Json(concat2("listing not found: ", listing_id)));
    }
    assert(es[ei as int] == json.entries@[ei as int]@);
    let entry = &json.entries[ei];
    let pk = match parse_pubkey(entry.publisher_pubkey.as_str()) {
        Ok(p) => p,
        Err(e) => return Err(e),
    };
    if !crate::commands::bytes_eq(pk.as_slice(), pubkey.as_slice()) {
        return Err(CliError::PublisherPubkeyMismatch);
    }
    let ghost rs = es[ei as int].releases;
    let mut ri: usize = 0;
    while ri < entry.releases.len() && !str_eq(entry.releases[ri].release_id.as_str(), release_id)
        invariant
            ri <= entry.releases@.len(),
            rs == entry@.releases,
            release_from(rs, release_id@, 0) == release_from(rs, release_id@, ri as int),
        decreases entry.releases@.len() - ri,
    {
        assert(rs[ri as int] == entry.releases@[ri as int]@);
        ri = ri + 1;
    }
    if ri >= entry.releases.len() {
        return Err(CliError::Json(concat2("release not found: ", release_id)));
    }
    assert(rs[ri as int] == entry.releases@[ri as int]@);
    let unsigned = unsigned_copy(&entry.releases[ri]);
    match to_release(&unsigned) {
        Ok(c) => Ok((ei, ri, c)),
        Err(e) => Err(e),
    }
}

/// Stores the publisher signature, in hex, on the release at (`ei`, `ri`).
pub fn attach_publisher_signature(json: &mut IndexJson, ei: usize, ri: usize, sig: &[u8; 64])
    requires
        ei < old(json).entries@.len(),
        ri < old(json).entries@[ei as int].releases@.len(),
    ensures
        final(json)@ == signed_index_json(old(json)@, ei as int, ri as int, hex_encode_spec(sig@)),
{
    let text = hex_encode(sig.as_slice());
    let ghost j0 = json@;
    let mut entries: Vec<EntryJson> = Vec::new();
    std::mem::swap(&mut entries, &mut json.entries);
    let ghost es0 = entries@;
    let mut entry = entries.remove(ei);
    let mut releases: Vec<ReleaseJson> = Vec::new();
    std::mem::swap(&mut releases, &mut entry.releases);
    let ghost rs0 = releases@;
    let mut release = releases.remove(ri);
    release.publisher_signature = text;
    releases.insert(ri, release);
    assert(releases@.map_values(|r: ReleaseJson| r@) =~= rs0.map_values(|r: ReleaseJson| r@).update(
        ri as int,
        with_signature(rs0[ri as int]@, hex_encode_spec(sig@)),
    ));
    entry.releases = releases;
    entries.insert(ei, entry);
    assert(entries@.map_values(|e: EntryJson| e@) =~= es0.map_values(|e: EntryJson| e@).update(
        ei as int,
        signed_index_json(j0, ei as int, ri as int, hex_encode_spec(sig@)).entries[ei as int],
    ));
    json.entries = entries;
}

/// The release that a publisher signed, once its signature is stored,
/// converts to the very canonical release that was signed, now
/// carrying the signature: storing the signature changes nothing else.
pub proof fn law_stored_signature_reads_back(
    j: IndexJsonModel,
    listing_id: Seq<char>,
    release_id: Seq<char>,
    pubkey: Seq<u8>,
    sig: Seq<u8>,
)
    requires
        release_to_sign_spec(j, listing_id, release_id, pubkey) is Ok,
        sig.len() == 64,
    ensures
        ({
            let (ei, ri, c) = release_to_sign_spec(j, listing_id, release_id, pubkey)->Ok_0;
            let signed = signed_index_json(j, ei, ri, hex_encode_spec(sig));
            release_spec(signed.entries[ei].releases[ri]) == Ok::<CapsuleReleaseModel, ErrorModel>(
                CapsuleReleaseModel {
                    release_id: c.release_id,
                    manifest_hash: c.manifest_hash,
                    package_hash: c.package_hash,
                    package_url: c.package_url,
                    publisher_signature: sig,
                    supported_arches: c.supported_arches,
                    kernel_abi_min: c.kernel_abi_min,
                    required_capabilities: c.required_capabilities,
                    validation: c.validation,
                },
            )
        }),
{
    let (ei, ri, c) = release_to_sign_spec(j, listing_id, release_id, pubkey)->Ok_0;
    lemma_listing_found(j.entries, listing_id, 0);
    lemma_release_found(j.entries[ei].releases, release_id, 0);
    crate::hexcodec::lemma_hex_roundtrip(sig);
    assert(hex_encode_spec(sig).len() > 0);
}

proof fn lemma_listing_found(es: Seq<EntryJsonModel>, id: Seq<char>, i: int)
    ensures
        listing_from(es, id, i) matches Some(k) ==> 0 <= k < es.len(),
    decreases es.len() - i,
{
    if 0 <= i < es.len() {
        lemma_listing_found(es, id, i + 1);
    }
}

proof fn lemma_release_found(rs: Seq<ReleaseJsonModel>, id: Seq<char>, i: int)
    ensures
        release_from(rs, id, i) matches Some(k) ==> 0 <= k < rs.len(),
    decreases rs.len() - i,
{
    if 0 <= i < rs.len() {
        lemma_release_found(rs, id, i + 1);
    }
}

proof fn lemma_listing_from_first(es: Seq<EntryJsonModel>, id: Seq<char>, i: int)
    requires
        0 <= i,
    ensures
        listing_from(es, id, i) matches Some(k) ==> {
            &&& i <= k < es.len()
            &&& es[k].listing_id == id
            &&& forall|m: int| i <= m < k ==> (#[trigger] es[m]).listing_id != id
        },
    decreases es.len() - i,
{
    if i < es.len() {
        lemma_listing_from_first(es, id, i + 1);
    }
}

proof fn lemma_release_from_first(rs: Seq<ReleaseJsonModel>, id: Seq<char>, i: int)
    requires
        0 <= i,
    ensures
        release_from(rs, id, i) matches Some(k) ==> {
            &&& i <= k < rs.len()
            &&& rs[k].release_id == id
            &&& forall|m: int| i <= m < k ==> (#[trigger] rs[m]).release_id != id
        },
    decreases rs.len() - i,
{
    if i < rs.len() {
        lemma_release_from_first(rs, id, i + 1);
    }
}

/// The release a publisher signs is the first release with the given
/// id in the first listing with the given id, whose publisher key (hex,
/// either case) is the signer's; what is signed is that release as it
/// stands, its hashes decoded, with no signature: every other field is
/// carried over unchanged.
pub proof fn law_release_to_sign_is_the_named_release(
    j: IndexJsonModel,
    listing_id: Seq<char>,
    release_id: Seq<char>,
    pubkey: Seq<u8>,
)
    ensures
        release_to_sign_spec(j, listing_id, release_id, pubkey) matches Ok((ei, ri, c)) ==> {
            let e = j.entries[ei];
            let r = e.releases[ri];
            &&& 0 <= ei < j.entries.len()
            &&& e.listing_id == listing_id
            &&& forall|m: int| 0 <= m < ei ==> (#[trigger] j.entries[m]).listing_id != listing_id
            &&& crate::hexcodec::hex_decode_str(e.publisher_pubkey) == Ok::<
                Seq<u8>,
                crate::hexcodec::HexError,
            >(pubkey)
            &&& 0 <= ri < e.releases.len()
            &&& r.release_id == release_id
            &&& forall|m: int| 0 <= m < ri ==> (#[trigger] e.releases[m]).release_id != release_id
            &&& c.release_id == r.release_id
            &&& crate::hexcodec::hex_decode_str(r.manifest_hash) == Ok::<
                Seq<u8>,
                crate::hexcodec::HexError,
            >(c.manifest_hash)
            &&& crate::hexcodec::hex_decode_str(r.package_hash) == Ok::<
                Seq<u8>,
                crate::hexcodec::HexError,
            >(c.package_hash)
            &&& c.package_url == r.package_url
            &&& c.publisher_signature == Seq::<u8>::empty()
            &&& c.supported_arches == r.supported_arches
            &&& c.kernel_abi_min == r.kernel_abi_min
            &&& c.required_capabilities == r.required_capabilities
            &&& c.validation.note == r.validation.note
            &&& c.validation.validator_id == r.validation.validator_id
            &&& c.validation.validated_at_ms == r.validation.validated_at_ms
        },
{
    lemma_listing_from_first(j.entries, listing_id, 0);
    if let Some(ei) = listing_from(j.entries, listing_id, 0) {
        lemma_release_from_first(j.entries[ei].releases, release_id, 0);
    }
}

/// Storing a signature on the release at (`ei`, `ri`) sets that
/// release's publisher signature and changes nothing else: every other
/// field of the release, its entry and the index, and every other
/// release and entry, stay as they were.
pub proof fn law_attach_changes_only_the_signature(j: IndexJsonModel, ei: int, ri: int, sig: Seq<char>)
    requires
        0 <= ei < j.entries.len(),
        0 <= ri < j.entries[ei].releases.len(),
    ensures
        ({
            let s = signed_index_json(j, ei, ri, sig);
            let a = j.entries[ei];
            let b = s.entries[ei];
            let x = a.releases[ri];
            let y = b.releases[ri];
            &&& s.schema_version == j.schema_version
            &&& s.operator_id == j.operator_id
            &&& s.published_at_ms == j.published_at_ms
            &&& s.serial == j.serial
            &&& s.entries.len() == j.entries.len()
            &&& forall|k: int| 0 <= k < j.entries.len() && k != ei ==> #[trigger] s.entries[k] == j.entries[k]
            &&& b.listing_id == a.listing_id
            &&& b.capsule_id == a.capsule_id
            &&& b.name == a.name
            &&& b.publisher_name == a.publisher_name
            &&& b.publisher_pubkey == a.publisher_pubkey
            &&& b.description == a.description
            &&& b.price == a.price
            &&& b.token == a.token
            &&& b.releases.len() == a.releases.len()
            &&& forall|k: int| 0 <= k < a.releases.len() && k != ri ==> #[trigger] b.releases[k] == a.releases[k]
            &&& y.release_id == x.release_id
            &&& y.manifest_hash == x.manifest_hash
            &&& y.package_hash == x.package_hash
            &&& y.package_url == x.package_url
            &&& y.publisher_signature == sig
            &&& y.supported_arches == x.supported_arches
            &&& y.kernel_abi_min == x.kernel_abi_min
            &&& y.required_capabilities == x.required_capabilities
            &&& y.validation == x.validation
        }),
{
}

} // verus!
