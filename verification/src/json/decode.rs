//! Canonical index → JSON, for human review and for the normalised
//! JSON that `sign` can write next to the blob.

use vstd::prelude::*;

use crate::abi::{
    CapsuleRelease, CapsuleReleaseModel, MarketplaceEntry, MarketplaceEntryModel,
    MarketplaceIndex, MarketplaceIndexModel, PriceKind, ValidationStatus,
};
use crate::hexcodec::{hex_encode, hex_encode_spec};
use crate::json::encode::clone_strings;
use crate::schema::{
    EntryJson, EntryJsonModel, IndexJson, IndexJsonModel, PriceJson, PriceJsonModel, ReleaseJson,
    ReleaseJsonModel, TokenJson, TokenJsonModel, ValidationJson, ValidationJsonModel,
};
use crate::text::{concat2, decimal, u128_to_decimal};

verus! {

pub open spec fn price_kind_text(k: PriceKind) -> Seq<char> {
    match k {
        PriceKind::Free => "free"@,
        PriceKind::OneTime => "one_time"@,
        PriceKind::Subscription => "subscription"@,
        PriceKind::UsageMetered => "usage_metered"@,
    }
}

pub open spec fn validation_status_text(s: ValidationStatus) -> Seq<char> {
    match s {
        ValidationStatus::Unknown => "unknown"@,
        ValidationStatus::Pending => "pending"@,
        ValidationStatus::Validated => "validated"@,
        ValidationStatus::Rejected => "rejected"@,
    }
}

pub open spec fn release_json_spec(r: CapsuleReleaseModel) -> ReleaseJsonModel {
    ReleaseJsonModel {
        release_id: r.release_id,
        manifest_hash: hex_encode_spec(r.manifest_hash),
        package_hash: hex_encode_spec(r.package_hash),
        package_url: r.package_url,
        publisher_signature: hex_encode_spec(r.publisher_signature),
        supported_arches: r.supported_arches,
        kernel_abi_min: r.kernel_abi_min,
        required_capabilities: r.required_capabilities,
        validation: ValidationJsonModel {
            status: validation_status_text(r.validation.status),
            note: r.validation.note,
            validator_id: r.validation.validator_id,
            validated_at_ms: r.validation.validated_at_ms,
        },
    }
}

/// The token's contract address as text: nothing for no address,
/// otherwise `0x` and lowercase hex.
pub open spec fn contract_address_text(a: Seq<u8>) -> Seq<char> {
    if a.len() == 0 {
        Seq::empty()
    } else {
        "0x"@ + hex_encode_spec(a)
    }
}

pub open spec fn entry_json_spec(e: MarketplaceEntryModel) -> EntryJsonModel {
    EntryJsonModel {
        listing_id: e.listing_id,
        capsule_id: hex_encode_spec(e.capsule_id),
        name: e.name,
        publisher_name: e.publisher_name,
        publisher_pubkey: hex_encode_spec(e.publisher_pubkey),
        description: e.description,
        price: PriceJsonModel {
            kind: price_kind_text(e.price.kind),
            amount_atomic: decimal(e.price.amount_atomic as nat),
            period_seconds: e.price.period_seconds,
        },
        token: TokenJsonModel {
            symbol: e.token.symbol,
            decimals: e.token.decimals,
            chain_id: e.token.chain_id,
            contract_address: contract_address_text(e.token.contract_address),
        },
        releases: e.releases.map_values(|r: CapsuleReleaseModel| release_json_spec(r)),
    }
}

/// The JSON form of an index: everything but the operator key and the
/// signature, which the JSON does not carry.
pub open spec fn index_json_spec(x: MarketplaceIndexModel) -> IndexJsonModel {
    IndexJsonModel {
        schema_version: x.schema_version,
        operator_id: x.operator_id,
        published_at_ms: x.published_at_ms,
        serial: x.serial,
        entries: x.entries.map_values(|e: MarketplaceEntryModel| entry_json_spec(e)),
    }
}

pub fn price_kind_str(kind: PriceKind) -> (s: &'static str)
    ensures
        s@ == price_kind_text(kind),
{
    match kind {
        PriceKind::Free => "free",
        PriceKind::OneTime => "one_time",
        PriceKind::Subscription => "subscription",
        PriceKind::UsageMetered => "usage_metered",
    }
}

pub fn validation_status_str(s: ValidationStatus) -> (t: &'static str)
    ensures
        t@ == validation_status_text(s),
{
    match s {
        ValidationStatus::Unknown => "unknown",
        ValidationStatus::Pending => "pending",
        ValidationStatus::Validated => "validated",
        ValidationStatus::Rejected => "rejected",
    }
}

pub fn release_to_json(r: &CapsuleRelease) -> (j: ReleaseJson)
    ensures
        j@ == release_json_spec(r@),
{
    ReleaseJson {
        release_id: r.release_id.clone(),
        manifest_hash: hex_encode(r.manifest_hash.as_slice()),
        package_hash: hex_encode(r.package_hash.as_slice()),
        package_url: r.package_url.clone(),
        publisher_signature: hex_encode(r.publisher_signature.as_slice()),
        supported_arches: clone_strings(&r.supported_arches),
        kernel_abi_min: r.kernel_abi_min,
        required_capabilities: clone_strings(&r.required_capabilities),
        validation: ValidationJson {
            status: String::from_str(validation_status_str(r.validation.status)),
            note: r.validation.note.clone(),
            validator_id: r.validation.validator_id.clone(),
            validated_at_ms: r.validation.validated_at_ms,
        },
    }
}

pub fn entry_to_json(e: &MarketplaceEntry) -> (j: EntryJson)
    ensures
        j@ == entry_json_spec(e@),
{
    let contract_address = if e.token.contract_address.len() == 0 {
        String::new()
    } else {
        let h = hex_encode(e.token.contract_address.as_slice());
        concat2("0x", h.as_str())
    };
    let mut releases: Vec<ReleaseJson> = Vec::new();
    let mut i: usize = 0;
    while i < e.releases.len()
        invariant
            i <= e.releases@.len(),
            releases@.len() == i,
            forall|k: int|
                0 <= k < i ==> (#[trigger] releases@[k])@ == release_json_spec(e.releases@[k]@),
        decreases e.releases@.len() - i,
    {
        releases.push(release_to_json(&e.releases[i]));
        i = i + 1;
    }
    let j = EntryJson {
        listing_id: e.listing_id.clone(),
        capsule_id: hex_encode(e.capsule_id.as_slice()),
        name: e.name.clone(),
        publisher_name: e.publisher_name.clone(),
        publisher_pubkey: hex_encode(e.publisher_pubkey.as_slice()),
        description: e.description.clone(),
        price: PriceJson {
            kind: String::from_str(price_kind_str(e.price.kind)),
            amount_atomic: u128_to_decimal(e.price.amount_atomic),
            period_seconds: e.price.period_seconds,
        },
        token: TokenJson {
            symbol: e.token.symbol.clone(),
            decimals: e.token.decimals,
            chain_id: e.token.chain_id,
            contract_address,
        },
        releases,
    };
    assert(j@.releases =~= e@.releases.map_values(|r: CapsuleReleaseModel| release_json_spec(r)));
    j
}

/// Re-projects a canonical index onto its JSON form.
pub fn from_index(index: &MarketplaceIndex) -> (j: IndexJson)
    ensures
        j@ == index_json_spec(index@),
{
    let mut entries: Vec<EntryJson> = Vec::new();
    let mut i: usize = 0;
    while i < index.entries.len()
        invariant
            i <= index.entries@.len(),
            entries@.len() == i,
            forall|k: int|
                0 <= k < i ==> (#[trigger] entries@[k])@ == entry_json_spec(index.entries@[k]@),
        decreases index.entries@.len() - i,
    {
        entries.push(entry_to_json(&index.entries[i]));
        i = i + 1;
    }
    let j = IndexJson {
        schema_version: index.schema_version,
        operator_id: index.operator_id.clone(),
        published_at_ms: index.published_at_ms,
        serial: index.serial,
        entries,
    };
    assert(j@.entries =~= index@.entries.map_values(|e: MarketplaceEntryModel| entry_json_spec(e)));
    j
}

} // verus!
