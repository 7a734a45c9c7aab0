//! Which field of one form each field of the other comes from, in both
//! directions of the projection.

use vstd::prelude::*;

use crate::abi::{PriceModel, ValidationReportModel, CapsuleReleaseModel, MarketplaceEntryModel, MarketplaceIndexModel};
use crate::error::ErrorModel;
use crate::hexcodec::{hex_decode_str, hex_encode_spec, HexError};
use crate::json::decode::{entry_json_spec, index_json_spec, release_json_spec};
use crate::json::encode::{price_spec, validation_spec, entries_spec, entry_spec, index_spec, release_spec, releases_spec};
use crate::schema::{EntryJsonModel, IndexJsonModel, ReleaseJsonModel};
use crate::text::{decimal, parse_unsigned, strip_hex_prefixes};

verus! {

/// A converted release takes each field from its namesake: hashes and
/// signature decoded from their hex (an empty signature is none), the
/// rest carried over.
pub proof fn law_release_fields(r: ReleaseJsonModel)
    ensures
        release_spec(r) matches Ok(c) ==> {
            &&& c.release_id == r.release_id
            &&& hex_decode_str(r.manifest_hash) == Ok::<Seq<u8>, HexError>(c.manifest_hash)
            &&& hex_decode_str(r.package_hash) == Ok::<Seq<u8>, HexError>(c.package_hash)
            &&& c.package_url == r.package_url
            &&& (r.publisher_signature.len() == 0 ==> c.publisher_signature == Seq::<u8>::empty())
            &&& (r.publisher_signature.len() > 0 ==> hex_decode_str(r.publisher_signature) == Ok::<
                Seq<u8>,
                HexError,
            >(c.publisher_signature))
            &&& c.supported_arches == r.supported_arches
            &&& c.kernel_abi_min == r.kernel_abi_min
            &&& c.required_capabilities == r.required_capabilities
            &&& c.validation.note == r.validation.note
            &&& c.validation.validator_id == r.validation.validator_id
            &&& c.validation.validated_at_ms == r.validation.validated_at_ms
            &&& validation_spec(r.validation) == Ok::<ValidationReportModel, ErrorModel>(c.validation)
        },
{
}

/// Converted releases come one for one, in order.
pub proof fn law_releases_one_for_one(rs: Seq<ReleaseJsonModel>)
    ensures
        releases_spec(rs) matches Ok(cs) ==> cs.len() == rs.len() && forall|i: int|
            0 <= i < rs.len() ==> release_spec(#[trigger] rs[i]) == Ok::<
                CapsuleReleaseModel,
                ErrorModel,
            >(cs[i]),
    decreases rs.len(),
{
    if rs.len() > 0 {
        law_releases_one_for_one(rs.drop_last());
        if let Ok(cs) = releases_spec(rs) {
            let done = releases_spec(rs.drop_last())->Ok_0;
            assert forall|i: int| 0 <= i < rs.len() implies release_spec(#[trigger] rs[i]) == Ok::<
                CapsuleReleaseModel,
                ErrorModel,
            >(cs[i]) by {
                if i < rs.len() - 1 {
                    assert(rs.drop_last()[i] == rs[i]);
                    assert(cs[i] == done[i]);
                }
            }
        }
    }
}

/// A converted entry takes each field from its namesake: ids and keys
/// decoded from hex, the amount read as a decimal, the contract address
/// decoded after its `0x` (empty text is none), releases one for one.
pub proof fn law_entry_fields(e: EntryJsonModel)
    ensures
        entry_spec(e) matches Ok(m) ==> {
            &&& m.listing_id == e.listing_id
            &&& hex_decode_str(e.capsule_id) == Ok::<Seq<u8>, HexError>(m.capsule_id)
            &&& m.name == e.name
            &&& m.publisher_name == e.publisher_name
            &&& hex_decode_str(e.publisher_pubkey) == Ok::<Seq<u8>, HexError>(m.publisher_pubkey)
            &&& m.description == e.description
            &&& parse_unsigned(e.price.amount_atomic, u128::MAX as nat) == Some(
                m.price.amount_atomic as nat,
            )
            &&& m.price.period_seconds == e.price.period_seconds
            &&& price_spec(e.price) == Ok::<PriceModel, ErrorModel>(m.price)
            &&& m.token.symbol == e.token.symbol
            &&& m.token.decimals == e.token.decimals
            &&& m.token.chain_id == e.token.chain_id
            &&& (e.token.contract_address.len() == 0 ==> m.token.contract_address == Seq::<
                u8,
            >::empty())
            &&& (e.token.contract_address.len() > 0 ==> hex_decode_str(
                strip_hex_prefixes(e.token.contract_address),
            ) == Ok::<Seq<u8>, HexError>(m.token.contract_address))
            &&& releases_spec(e.releases) == Ok::<Seq<CapsuleReleaseModel>, ErrorModel>(m.releases)
        },
{
}

/// Converted entries come one for one, in order.
pub proof fn law_entries_one_for_one(es: Seq<EntryJsonModel>)
    ensures
        entries_spec(es) matches Ok(ms) ==> ms.len() == es.len() && forall|i: int|
            0 <= i < es.len() ==> entry_spec(#[trigger] es[i]) == Ok::<
                MarketplaceEntryModel,
                ErrorModel,
            >(ms[i]),
    decreases es.len(),
{
    if es.len() > 0 {
        law_entries_one_for_one(es.drop_last());
        if let Ok(ms) = entries_spec(es) {
            let done = entries_spec(es.drop_last())->Ok_0;
            assert forall|i: int| 0 <= i < es.len() implies entry_spec(#[trigger] es[i]) == Ok::<
                MarketplaceEntryModel,
                ErrorModel,
            >(ms[i]) by {
                if i < es.len() - 1 {
                    assert(es.drop_last()[i] == es[i]);
                    assert(ms[i] == done[i]);
                }
            }
        }
    }
}

/// A converted index keeps the header fields, carries the operator key
/// it was given, has no signature yet, and converts the entries one for
/// one.
pub proof fn law_index_fields(j: IndexJsonModel, operator_pubkey: Seq<u8>)
    ensures
        index_spec(j, operator_pubkey) matches Ok(x) ==> {
            &&& x.schema_version == j.schema_version
            &&& x.operator_id == j.operator_id
            &&& x.operator_pubkey == operator_pubkey
            &&& x.published_at_ms == j.published_at_ms
            &&& x.serial == j.serial
            &&& x.index_signature == Seq::<u8>::empty()
            &&& entries_spec(j.entries) == Ok::<Seq<MarketplaceEntryModel>, ErrorModel>(x.entries)
        },
{
}

/// The JSON form of a release writes each field under its own name:
/// hashes and signature as lowercase hex, the rest as they are.
pub proof fn law_release_json_fields(c: CapsuleReleaseModel)
    ensures
        ({
            let r = release_json_spec(c);
            &&& r.release_id == c.release_id
            &&& r.manifest_hash == hex_encode_spec(c.manifest_hash)
            &&& r.package_hash == hex_encode_spec(c.package_hash)
            &&& r.package_url == c.package_url
            &&& r.publisher_signature == hex_encode_spec(c.publisher_signature)
            &&& r.supported_arches == c.supported_arches
            &&& r.kernel_abi_min == c.kernel_abi_min
            &&& r.required_capabilities == c.required_capabilities
            &&& r.validation.note == c.validation.note
            &&& r.validation.validator_id == c.validation.validator_id
            &&& r.validation.validated_at_ms == c.validation.validated_at_ms
        }),
{
}

/// The JSON form of an entry writes each field under its own name: ids
/// and keys as lowercase hex, the amount in decimal, the contract
/// address as `0x` and hex (nothing when there is none), and the
/// releases one for one, in order.
pub proof fn law_entry_json_fields(m: MarketplaceEntryModel)
    ensures
        ({
            let e = entry_json_spec(m);
            &&& e.listing_id == m.listing_id
            &&& e.capsule_id == hex_encode_spec(m.capsule_id)
            &&& e.name == m.name
            &&& e.publisher_name == m.publisher_name
            &&& e.publisher_pubkey == hex_encode_spec(m.publisher_pubkey)
            &&& e.description == m.description
            &&& e.price.amount_atomic == decimal(m.price.amount_atomic as nat)
            &&& e.price.period_seconds == m.price.period_seconds
            &&& e.token.symbol == m.token.symbol
            &&& e.token.decimals == m.token.decimals
            &&& e.token.chain_id == m.token.chain_id
            &&& (m.token.contract_address.len() == 0 ==> e.token.contract_address.len() == 0)
            &&& (m.token.contract_address.len() > 0 ==> e.token.contract_address == "0x"@
                + hex_encode_spec(m.token.contract_address))
            &&& e.releases.len() == m.releases.len()
            &&& forall|i: int|
                0 <= i < m.releases.len() ==> #[trigger] e.releases[i] == release_json_spec(
                    m.releases[i],
                )
        }),
{
}

/// The JSON form of an index keeps the header fields and writes the
/// entries one for one, in order.
pub proof fn law_index_json_fields(x: MarketplaceIndexModel)
    ensures
        ({
            let j = index_json_spec(x);
            &&& j.schema_version == x.schema_version
            &&& j.operator_id == x.operator_id
            &&& j.published_at_ms == x.published_at_ms
            &&& j.serial == x.serial
            &&& j.entries.len() == x.entries.len()
            &&& forall|i: int|
                0 <= i < x.entries.len() ==> #[trigger] j.entries[i] == entry_json_spec(x.entries[i])
        }),
{
}

} // verus!
