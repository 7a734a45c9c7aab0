//! JSON → canonical index. The index signature is left empty here;
//! it is filled in after the canonical bytes are signed.

use vstd::prelude::*;

use crate::abi::{
    strings_view, CapsuleRelease, CapsuleReleaseModel, MarketplaceEntry, MarketplaceEntryModel,
    MarketplaceIndex, MarketplaceIndexModel, PriceKind, PriceModel,
    TokenInfo, TokenInfoModel, ValidationReport, ValidationReportModel, ValidationStatus,
};
use crate::error::{CliError, ErrorModel};
use crate::hexcodec::{hex_decode, hex_decode_str, hex_error_text};
use crate::schema::{
    EntryJson, EntryJsonModel, IndexJson, IndexJsonModel, PriceJson, PriceJsonModel, ReleaseJson, ReleaseJsonModel, TokenJson,
    TokenJsonModel, ValidationJson, ValidationJsonModel,
};
use crate::text::{concat2, concat3, parse_u128, parse_unsigned, str_eq, strip_hex_prefixes, strip_hex_prefixes_str};

verus! {

/// What a fallible conversion gives, by its values' views.
pub open spec fn outcome<T: View>(r: Result<T, CliError>) -> Result<T::V, ErrorModel> {
    match r {
        Ok(v) => Ok(v@),
        Err(e) => Err(e@),
    }
}

/// A 32-byte field written in hex: a decoding failure names the field
/// and the hex error, a decoded length other than 32 is `BadHexLen`.
pub open spec fn hex32_spec(s: Seq<char>, field: Seq<char>) -> Result<Seq<u8>, ErrorModel> {
    match hex_decode_str(s) {
        Err(e) => Err(ErrorModel::Json(field + ": "@ + hex_error_text(e))),
        Ok(b) => if b.len() != 32 {
            Err(ErrorModel::BadHexLen { field, expected: 32, got: b.len() })
        } else {
            Ok(b)
        },
    }
}

pub open spec fn price_kind_from_text(s: Seq<char>) -> Option<PriceKind> {
    if s == "free"@ {
        Some(PriceKind::Free)
    } else if s == "one_time"@ {
        Some(PriceKind::OneTime)
    } else if s == "subscription"@ {
        Some(PriceKind::Subscription)
    } else if s == "usage_metered"@ {
        Some(PriceKind::UsageMetered)
    } else {
        None
    }
}

pub open spec fn validation_status_from_text(s: Seq<char>) -> Option<ValidationStatus> {
    if s == "unknown"@ {
        Some(ValidationStatus::Unknown)
    } else if s == "pending"@ {
        Some(ValidationStatus::Pending)
    } else if s == "validated"@ {
        Some(ValidationStatus::Validated)
    } else if s == "rejected"@ {
        Some(ValidationStatus::Rejected)
    } else {
        None
    }
}

pub open spec fn price_spec(p: PriceJsonModel) -> Result<PriceModel, ErrorModel> {
    match price_kind_from_text(p.kind) {
        None => Err(ErrorModel::UnknownEnum { field: "price.kind"@, value: p.kind }),
        Some(kind) => match parse_unsigned(p.amount_atomic, u128::MAX as nat) {
            None => Err(ErrorModel::Json("price.amount_atomic: not a u128: "@ + p.amount_atomic)),
            Some(v) => Ok(
                PriceModel { kind, amount_atomic: v as u128, period_seconds: p.period_seconds },
            ),
        },
    }
}

/// The token's contract address: empty text is no address; otherwise
/// hex after any leading `0x`.
pub open spec fn contract_address_spec(s: Seq<char>) -> Result<Seq<u8>, ErrorModel> {
    if s.len() == 0 {
        Ok(Seq::empty())
    } else {
        match hex_decode_str(strip_hex_prefixes(s)) {
            Err(e) => Err(ErrorModel::Json("token.contract_address: "@ + hex_error_text(e))),
            Ok(b) => Ok(b),
        }
    }
}

pub open spec fn token_spec(t: TokenJsonModel) -> Result<TokenInfoModel, ErrorModel> {
    match contract_address_spec(t.contract_address) {
        Err(e) => Err(e),
        Ok(contract_address) => Ok(
            TokenInfoModel {
                symbol: t.symbol,
                decimals: t.decimals,
                chain_id: t.chain_id,
                contract_address,
            },
        ),
    }
}

pub open spec fn validation_spec(v: ValidationJsonModel) -> Result<ValidationReportModel, ErrorModel> {
    match validation_status_from_text(v.status) {
        None => Err(ErrorModel::UnknownEnum { field: "validation.status"@, value: v.status }),
        Some(status) => Ok(
            ValidationReportModel {
                status,
                note: v.note,
                validator_id: v.validator_id,
                validated_at_ms: v.validated_at_ms,
            },
        ),
    }
}

/// The publisher signature: empty text is no signature; otherwise hex.
pub open spec fn publisher_signature_spec(s: Seq<char>) -> Result<Seq<u8>, ErrorModel> {
    if s.len() == 0 {
        Ok(Seq::empty())
    } else {
        match hex_decode_str(s) {
            Err(e) => Err(ErrorModel::Json("publisher_signature: "@ + hex_error_text(e))),
            Ok(b) => Ok(b),
        }
    }
}

/// A release: the publisher signature is read first, then the two
/// hashes, then the validation report; the first failure is reported.
pub open spec fn release_spec(r: ReleaseJsonModel) -> Result<CapsuleReleaseModel, ErrorModel> {
    match publisher_signature_spec(r.publisher_signature) {
        Err(e) => Err(e),
        Ok(sig) => match hex32_spec(r.manifest_hash, "manifest_hash"@) {
            Err(e) => Err(e),
            Ok(mh) => match hex32_spec(r.package_hash, "package_hash"@) {
                Err(e) => Err(e),
                Ok(ph) => match validation_spec(r.validation) {
                    Err(e) => Err(e),
                    Ok(validation) => Ok(
                        CapsuleReleaseModel {
                            release_id: r.release_id,
                            manifest_hash: mh,
                            package_hash: ph,
                            package_url: r.package_url,
                            publisher_signature: sig,
                            supported_arches: r.supported_arches,
                            kernel_abi_min: r.kernel_abi_min,
                            required_capabilities: r.required_capabilities,
                            validation,
                        },
                    ),
                },
            },
        },
    }
}

/// The releases in order, or the failure of the first one that fails.
pub open spec fn releases_spec(rs: Seq<ReleaseJsonModel>) -> Result<Seq<CapsuleReleaseModel>, ErrorModel>
    decreases rs.len(),
{
    if rs.len() == 0 {
        Ok(Seq::empty())
    } else {
        match releases_spec(rs.drop_last()) {
            Err(e) => Err(e),
            Ok(done) => match release_spec(rs.last()) {
                Err(e) => Err(e),
                Ok(r) => Ok(done.push(r)),
            },
        }
    }
}

/// An entry: capsule id, publisher key, price, token, then the
/// releases; the first failure is reported.
pub open spec fn entry_spec(e: EntryJsonModel) -> Result<MarketplaceEntryModel, ErrorModel> {
    match hex32_spec(e.capsule_id, "capsule_id"@) {
        Err(x) => Err(x),
        Ok(capsule_id) => match hex32_spec(e.publisher_pubkey, "publisher_pubkey"@) {
            Err(x) => Err(x),
            Ok(publisher_pubkey) => match price_spec(e.price) {
                Err(x) => Err(x),
                Ok(price) => match token_spec(e.token) {
                    Err(x) => Err(x),
                    Ok(token) => match releases_spec(e.releases) {
                        Err(x) => Err(x),
                        Ok(releases) => Ok(
                            MarketplaceEntryModel {
                                listing_id: e.listing_id,
                                capsule_id,
                                name: e.name,
                                publisher_name: e.publisher_name,
                                publisher_pubkey,
                                description: e.description,
                                price,
                                token,
                                releases,
                            },
                        ),
                    },
                },
            },
        },
    }
}

/// The entries in order, or the failure of the first one that fails.
pub open spec fn entries_spec(es: Seq<EntryJsonModel>) -> Result<Seq<MarketplaceEntryModel>, ErrorModel>
    decreases es.len(),
{
    if es.len() == 0 {
        Ok(Seq::empty())
    } else {
        match entries_spec(es.drop_last()) {
            Err(x) => Err(x),
            Ok(done) => match entry_spec(es.last()) {
                Err(x) => Err(x),
                Ok(e) => Ok(done.push(e)),
            },
        }
    }
}

/// The whole index, under the given operator key, with no signature yet.
pub open spec fn index_spec(j: IndexJsonModel, operator_pubkey: Seq<u8>) -> Result<
    MarketplaceIndexModel,
    ErrorModel,
> {
    match entries_spec(j.entries) {
        Err(x) => Err(x),
        Ok(entries) => Ok(
            MarketplaceIndexModel {
                schema_version: j.schema_version,
                operator_id: j.operator_id,
                operator_pubkey,
                published_at_ms: j.published_at_ms,
                serial: j.serial,
                entries,
                index_signature: Seq::empty(),
            },
        ),
    }
}

/// Decodes a 32-byte field written in hex.
pub fn hex32(s: &str, field: &'static str) -> (r: Result<[u8; 32], CliError>)
    ensures
        outcome(r) == hex32_spec(s@, field@),
{
    match hex_decode(s) {
        Err(e) => {
            let t = e.text();
            Err(CliError::Json(concat3(field, ": ", t.as_str())))
        },
        Ok(b) => {
            if b.len() != 32 {
                Err(CliError::BadHexLen { field, expected: 32, got: b.len() })
            } else {
                let mut out = [0u8; 32];
                let mut i: usize = 0;
                while i < 32
                    invariant
                        b@.len() == 32,
                        i <= 32,
                        forall|j: int| 0 <= j < i ==> out@[j] == b@[j],
                    decreases 32 - i,
                {
                    out[i] = b[i];
                    i = i + 1;
                }
                assert(out@ =~= b@);
                Ok(out)
            }
        },
    }
}

pub fn to_price(p: &PriceJson) -> (r: Result<PriceModel, CliError>)
    ensures
        outcome(r) == price_spec(p@),
{
    let kind = if str_eq(p.kind.as_str(), "free") {
        PriceKind::Free
    } else if str_eq(p.kind.as_str(), "one_time") {
        PriceKind::OneTime
    } else if str_eq(p.kind.as_str(), "subscription") {
        PriceKind::Subscription
    } else if str_eq(p.kind.as_str(), "usage_metered") {
        PriceKind::UsageMetered
    } else {
        return Err(CliError::UnknownEnum { field: "price.kind", value: p.kind.clone() });
    };
    match parse_u128(p.amount_atomic.as_str()) {
        None => Err(
            CliError::Json(
                concat2("price.amount_atomic: not a u128: ", p.amount_atomic.as_str()),
            ),
        ),
        Some(amount_atomic) => Ok(
            PriceModel { kind, amount_atomic, period_seconds: p.period_seconds },
        ),
    }
}

pub fn to_token(t: &TokenJson) -> (r: Result<TokenInfo, CliError>)
    ensures
        outcome(r) == token_spec(t@),
{
    let contract_address = if t.contract_address.as_str().is_empty() {
        Vec::new()
    } else {
        let stripped = strip_hex_prefixes_str(t.contract_address.as_str());
        match hex_decode(stripped) {
            Ok(b) => b,
            Err(e) => {
                let txt = e.text();
                return Err(
                    CliError::Json(concat2("token.contract_address: ", txt.as_str())),
                );
            },
        }
    };
    Ok(
        TokenInfo {
            symbol: t.symbol.clone(),
            decimals: t.decimals,
            chain_id: t.chain_id,
            contract_address,
        },
    )
}

pub fn to_validation(v: &ValidationJson) -> (r: Result<ValidationReport, CliError>)
    ensures
        outcome(r) == validation_spec(v@),
{
    let status = if str_eq(v.status.as_str(), "unknown") {
        ValidationStatus::Unknown
    } else if str_eq(v.status.as_str(), "pending") {
        ValidationStatus::Pending
    } else if str_eq(v.status.as_str(), "validated") {
        ValidationStatus::Validated
    } else if str_eq(v.status.as_str(), "rejected") {
        ValidationStatus::Rejected
    } else {
        return Err(CliError::UnknownEnum { field: "validation.status", value: v.status.clone() });
    };
    Ok(
        ValidationReport {
            status,
            note: v.note.clone(),
            validator_id: v.validator_id.clone(),
            validated_at_ms: v.validated_at_ms,
        },
    )
}

/// Copies a list of strings.
pub fn clone_strings(v: &Vec<String>) -> (r: Vec<String>)
    ensures
        strings_view(r@) == strings_view(v@),
{
    let mut r: Vec<String> = Vec::new();
    let mut i: usize = 0;
    while i < v.len()
        invariant
            i <= v@.len(),
            r@.len() == i,
            strings_view(r@) =~= strings_view(v@.subrange(0, i as int)),
        decreases v@.len() - i,
    {
        let ghost before = r@;
        let c = v[i].clone();
        assert(c@ == v@[i as int]@);
        r.push(c);
        proof {
            assert forall|j: int| 0 <= j < r@.len() implies #[trigger] strings_view(r@)[j]
                == strings_view(v@.subrange(0, i + 1))[j] by {
                if j < i {
                    assert(r@[j] == before[j]);
                    assert(strings_view(before)[j] == strings_view(v@.subrange(0, i as int))[j]);
                }
            }
        }
        i = i + 1;
        assert(strings_view(r@) =~= strings_view(v@.subrange(0, i as int)));
    }
    assert(v@.subrange(0, v@.len() as int) =~= v@);
    r
}

pub fn to_release(r: &ReleaseJson) -> (out: Result<CapsuleRelease, CliError>)
    ensures
        outcome(out) == release_spec(r@),
{
    let publisher_signature = if r.publisher_signature.as_str().is_empty() {
        Vec::new()
    } else {
        match hex_decode(r.publisher_signature.as_str()) {
            Ok(b) => b,
            Err(e) => {
                let txt = e.text();
                return Err(CliError::Json(concat2("publisher_signature: ", txt.as_str())));
            },
        }
    };
    let manifest_hash = match hex32(r.manifest_hash.as_str(), "manifest_hash") {
        Ok(h) => h,
        Err(e) => return Err(e),
    };
    let package_hash = match hex32(r.package_hash.as_str(), "package_hash") {
        Ok(h) => h,
        Err(e) => return Err(e),
    };
    let validation = match to_validation(&r.validation) {
        Ok(v) => v,
        Err(e) => return Err(e),
    };
    Ok(
        CapsuleRelease {
            release_id: r.release_id.clone(),
            manifest_hash,
            package_hash,
            package_url: r.package_url.clone(),
            publisher_signature,
            supported_arches: clone_strings(&r.supported_arches),
            kernel_abi_min: r.kernel_abi_min,
            required_capabilities: clone_strings(&r.required_capabilities),
            validation,
        },
    )
}

fn to_releases(rs: &Vec<ReleaseJson>) -> (out: Result<Vec<CapsuleRelease>, CliError>)
    ensures
        match out {
            Ok(v) => releases_spec(rs@.map_values(|r: ReleaseJson| r@)) == Ok::<
                Seq<CapsuleReleaseModel>,
                ErrorModel,
            >(v@.map_values(|r: CapsuleRelease| r@)),
            Err(e) => releases_spec(rs@.map_values(|r: ReleaseJson| r@)) == Err::<
                Seq<CapsuleReleaseModel>,
                ErrorModel,
            >(e@),
        },
{
    let ghost js = rs@.map_values(|r: ReleaseJson| r@);
    let mut out: Vec<CapsuleRelease> = Vec::new();
    let mut i: usize = 0;
    assert(js.subrange(0, 0) =~= Seq::<ReleaseJsonModel>::empty());
    assert(out@.map_values(|r: CapsuleRelease| r@) =~= Seq::<CapsuleReleaseModel>::empty());
    while i < rs.len()
        invariant
            i <= rs@.len(),
            js == rs@.map_values(|r: ReleaseJson| r@),
            releases_spec(js.subrange(0, i as int)) == Ok::<Seq<CapsuleReleaseModel>, ErrorModel>(
                out@.map_values(|r: CapsuleRelease| r@),
            ),
        decreases rs@.len() - i,
    {
        let one = to_release(&rs[i]);
        assert(js.subrange(0, i + 1).drop_last() =~= js.subrange(0, i as int));
        assert(js.subrange(0, i + 1).last() == rs@[i as int]@);
        match one {
            Ok(r) => {
                let ghost before = out@;
                out.push(r);
                assert(out@.map_values(|r: CapsuleRelease| r@) =~= before.map_values(
                    |r: CapsuleRelease| r@,
                ).push(out@.last()@));
            },
            Err(e) => {
                proof {
                    lemma_releases_error_persists(js, (i + 1) as int);
                    assert(js.subrange(0, js.len() as int) =~= js);
                }
                return Err(e);
            },
        }
        i = i + 1;
    }
    assert(js.subrange(0, js.len() as int) =~= js);
    Ok(out)
}

/// Once a prefix of the releases fails, every longer prefix fails the
/// same way.
proof fn lemma_releases_error_persists(js: Seq<ReleaseJsonModel>, k: int)
    requires
        0 <= k <= js.len(),
        releases_spec(js.subrange(0, k)) is Err,
    ensures
        releases_spec(js) == releases_spec(js.subrange(0, k)),
    decreases js.len() - k,
{
    if k < js.len() {
        assert(js.subrange(0, k + 1).drop_last() =~= js.subrange(0, k));
        lemma_releases_error_persists(js, k + 1);
    } else {
        assert(js.subrange(0, k) =~= js);
    }
}

pub fn to_entry(e: &EntryJson) -> (out: Result<MarketplaceEntry, CliError>)
    ensures
        outcome(out) == entry_spec(e@),
{
    let capsule_id = match hex32(e.capsule_id.as_str(), "capsule_id") {
        Ok(h) => h,
        Err(x) => return Err(x),
    };
    let publisher_pubkey = match hex32(e.publisher_pubkey.as_str(), "publisher_pubkey") {
        Ok(h) => h,
        Err(x) => return Err(x),
    };
    let price = match to_price(&e.price) {
        Ok(p) => p,
        Err(x) => return Err(x),
    };
    let token = match to_token(&e.token) {
        Ok(t) => t,
        Err(x) => return Err(x),
    };
    let releases = match to_releases(&e.releases) {
        Ok(rs) => rs,
        Err(x) => return Err(x),
    };
    Ok(
        MarketplaceEntry {
            listing_id: e.listing_id.clone(),
            capsule_id,
            name: e.name.clone(),
            publisher_name: e.publisher_name.clone(),
            publisher_pubkey,
            description: e.description.clone(),
            price,
            token,
            releases,
        },
    )
}

/// Once a prefix of the entries fails, every longer prefix fails the
/// same way.
proof fn lemma_entries_error_persists(js: Seq<EntryJsonModel>, k: int)
    requires
        0 <= k <= js.len(),
        entries_spec(js.subrange(0, k)) is Err,
    ensures
        entries_spec(js) == entries_spec(js.subrange(0, k)),
    decreases js.len() - k,
{
    if k < js.len() {
        assert(js.subrange(0, k + 1).drop_last() =~= js.subrange(0, k));
        lemma_entries_error_persists(js, k + 1);
    } else {
        assert(js.subrange(0, k) =~= js);
    }
}

/// Projects the JSON index onto the canonical index under
/// `operator_pubkey`, with an empty signature. Entries are converted in
/// order and the first failure is returned.
pub fn to_index(json: &IndexJson, operator_pubkey: [u8; 32]) -> (out: Result<MarketplaceIndex, CliError>)
    ensures
        outcome(out) == index_spec(json@, operator_pubkey@),
{
    let ghost js = json.entries@.map_values(|e: EntryJson| e@);
    let mut entries: Vec<MarketplaceEntry> = Vec::with_capacity(json.entries.len());
    let mut i: usize = 0;
    assert(js.subrange(0, 0) =~= Seq::<EntryJsonModel>::empty());
    assert(entries@.map_values(|e: MarketplaceEntry| e@) =~= Seq::<MarketplaceEntryModel>::empty());
    while i < json.entries.len()
        invariant
            i <= json.entries@.len(),
            js == json.entries@.map_values(|e: EntryJson| e@),
            entries_spec(js.subrange(0, i as int)) == Ok::<Seq<MarketplaceEntryModel>, ErrorModel>(
                entries@.map_values(|e: MarketplaceEntry| e@),
            ),
        decreases json.entries@.len() - i,
    {
        let one = to_entry(&json.entries[i]);
        assert(js.subrange(0, i + 1).drop_last() =~= js.subrange(0, i as int));
        assert(js.subrange(0, i + 1).last() == json.entries@[i as int]@);
        match one {
            Ok(e) => {
                let ghost before = entries@;
                entries.push(e);
                assert(entries@.map_values(|e: MarketplaceEntry| e@) =~= before.map_values(
                    |e: MarketplaceEntry| e@,
                ).push(entries@.last()@));
            },
            Err(x) => {
                proof {
                    lemma_entries_error_persists(js, (i + 1) as int);
                    assert(js.subrange(0, js.len() as int) =~= js);
                }
                return Err(x);
            },
        }
        i = i + 1;
    }
    assert(js.subrange(0, js.len() as int) =~= js);
    let out = MarketplaceIndex {
        schema_version: json.schema_version,
        operator_id: json.operator_id.clone(),
        operator_pubkey,
        published_at_ms: json.published_at_ms,
        serial: json.serial,
        entries,
        index_signature: Vec::new(),
    };
    assert(out@.index_signature =~= Seq::<u8>::empty());
    Ok(out)
}

} // verus!
