//! The JSON form of an index carries all of it but the operator key and
//! the signature: projecting it back gives the same index.

use vstd::prelude::*;

use crate::abi::{
    entry_wf, index_wf, release_wf, CapsuleReleaseModel, MarketplaceEntryModel,
    MarketplaceIndex, MarketplaceIndexModel, PriceKind, ValidationStatus,
};
use crate::error::ErrorModel;
use crate::hexcodec::{hex_encode_spec, is_lower_hex, lemma_hex_roundtrip, lemma_lower_hex_canonical};
use crate::json::decode::{
    contract_address_text, entry_json_spec, index_json_spec, price_kind_text, release_json_spec,
    validation_status_text,
};
use crate::json::encode::{
    contract_address_spec, entries_spec, entry_spec, hex32_spec, index_spec,
    price_kind_from_text, publisher_signature_spec, release_spec, releases_spec,
    validation_status_from_text,
};
use crate::schema::{EntryJsonModel, IndexJsonModel, ReleaseJsonModel};
use crate::text::{
    parse_unsigned, is_canonical_decimal, is_digit, lemma_canonical_decimal, lemma_parse_decimal, strip_hex_prefixes,
};

verus! {

/// Each price kind's JSON spelling is read back as that kind.
pub proof fn lemma_price_kind_text(k: PriceKind)
    ensures
        price_kind_from_text(price_kind_text(k)) == Some(k),
{
    reveal_strlit("free");
    reveal_strlit("one_time");
    reveal_strlit("subscription");
    reveal_strlit("usage_metered");
    assert("free"@.len() == 4);
    assert("one_time"@.len() == 8);
    assert("subscription"@.len() == 12);
    assert("usage_metered"@.len() == 13);
}

/// Each validation status's JSON spelling is read back as that status.
pub proof fn lemma_validation_status_text(s: ValidationStatus)
    ensures
        validation_status_from_text(validation_status_text(s)) == Some(s),
{
    reveal_strlit("unknown");
    reveal_strlit("pending");
    reveal_strlit("validated");
    reveal_strlit("rejected");
    assert("unknown"@.len() == 7);
    assert("pending"@.len() == 7);
    assert("validated"@.len() == 9);
    assert("rejected"@.len() == 8);
    assert("unknown"@[0] != "pending"@[0]);
}

proof fn lemma_hex32_roundtrip(b: Seq<u8>, field: Seq<char>)
    requires
        b.len() == 32,
    ensures
        hex32_spec(hex_encode_spec(b), field) == Ok::<Seq<u8>, ErrorModel>(b),
{
    lemma_hex_roundtrip(b);
}

proof fn lemma_contract_address_roundtrip(a: Seq<u8>)
    ensures
        contract_address_spec(contract_address_text(a)) == Ok::<Seq<u8>, ErrorModel>(a),
{
    if a.len() > 0 {
        reveal_strlit("0x");
        let h = hex_encode_spec(a);
        let t = "0x"@ + h;
        assert(t[0] == '0' && t[1] == 'x');
        assert(t.skip(2) =~= h);
        assert(h[1] == crate::hexcodec::hex_digit((a[0] % 16) as nat));
        assert(h[1] != 'x') by {
            let v = (a[0] % 16) as nat;
            assert(v < 16);
        }
        assert(strip_hex_prefixes(t) == strip_hex_prefixes(h));
        assert(strip_hex_prefixes(h) == h);
        lemma_hex_roundtrip(a);
    } else {
        assert(contract_address_text(a) =~= Seq::<char>::empty());
        assert(a =~= Seq::<u8>::empty());
    }
}

proof fn lemma_publisher_signature_roundtrip(s: Seq<u8>)
    ensures
        publisher_signature_spec(hex_encode_spec(s)) == Ok::<Seq<u8>, ErrorModel>(s),
{
    if s.len() > 0 {
        lemma_hex_roundtrip(s);
    } else {
        assert(s =~= Seq::<u8>::empty());
    }
}

proof fn lemma_release_roundtrip(r: CapsuleReleaseModel)
    requires
        release_wf(r),
    ensures
        release_spec(release_json_spec(r)) == Ok::<CapsuleReleaseModel, ErrorModel>(r),
{
    lemma_publisher_signature_roundtrip(r.publisher_signature);
    lemma_hex32_roundtrip(r.manifest_hash, "manifest_hash"@);
    lemma_hex32_roundtrip(r.package_hash, "package_hash"@);
    lemma_validation_status_text(r.validation.status);
}

proof fn lemma_releases_roundtrip(rs: Seq<CapsuleReleaseModel>)
    requires
        forall|i: int| 0 <= i < rs.len() ==> release_wf(#[trigger] rs[i]),
    ensures
        releases_spec(rs.map_values(|r: CapsuleReleaseModel| release_json_spec(r))) == Ok::<
            Seq<CapsuleReleaseModel>,
            ErrorModel,
        >(rs),
    decreases rs.len(),
{
    let js = rs.map_values(|r: CapsuleReleaseModel| release_json_spec(r));
    if rs.len() > 0 {
        lemma_releases_roundtrip(rs.drop_last());
        assert(js.drop_last() =~= rs.drop_last().map_values(
            |r: CapsuleReleaseModel| release_json_spec(r),
        ));
        lemma_release_roundtrip(rs.last());
        assert(rs.drop_last().push(rs.last()) =~= rs);
    } else {
        assert(js =~= Seq::<ReleaseJsonModel>::empty());
        assert(rs =~= Seq::<CapsuleReleaseModel>::empty());
    }
}

proof fn lemma_entry_roundtrip(e: MarketplaceEntryModel)
    requires
        entry_wf(e),
    ensures
        entry_spec(entry_json_spec(e)) == Ok::<MarketplaceEntryModel, ErrorModel>(e),
{
    lemma_hex32_roundtrip(e.capsule_id, "capsule_id"@);
    lemma_hex32_roundtrip(e.publisher_pubkey, "publisher_pubkey"@);
    lemma_price_kind_text(e.price.kind);
    lemma_parse_decimal(e.price.amount_atomic as nat, u128::MAX as nat);
    lemma_contract_address_roundtrip(e.token.contract_address);
    lemma_releases_roundtrip(e.releases);
}

proof fn lemma_entries_roundtrip(es: Seq<MarketplaceEntryModel>)
    requires
        forall|i: int| 0 <= i < es.len() ==> entry_wf(#[trigger] es[i]),
    ensures
        entries_spec(es.map_values(|e: MarketplaceEntryModel| entry_json_spec(e))) == Ok::<
            Seq<MarketplaceEntryModel>,
            ErrorModel,
        >(es),
    decreases es.len(),
{
    let js = es.map_values(|e: MarketplaceEntryModel| entry_json_spec(e));
    if es.len() > 0 {
        lemma_entries_roundtrip(es.drop_last());
        assert(js.drop_last() =~= es.drop_last().map_values(
            |e: MarketplaceEntryModel| entry_json_spec(e),
        ));
        lemma_entry_roundtrip(es.last());
        assert(es.drop_last().push(es.last()) =~= es);
    } else {
        assert(js =~= Seq::<EntryJsonModel>::empty());
        assert(es =~= Seq::<MarketplaceEntryModel>::empty());
    }
}

/// Re-projecting an index to JSON and projecting that JSON back under
/// the index's own operator key gives the same index, without its
/// signature: the JSON form loses nothing else.
pub proof fn law_json_reprojection_roundtrip(x: MarketplaceIndexModel)
    requires
        index_wf(x),
    ensures
        index_spec(index_json_spec(x), x.operator_pubkey) == Ok::<MarketplaceIndexModel, ErrorModel>(
            MarketplaceIndexModel {
                schema_version: x.schema_version,
                operator_id: x.operator_id,
                operator_pubkey: x.operator_pubkey,
                published_at_ms: x.published_at_ms,
                serial: x.serial,
                entries: x.entries,
                index_signature: Seq::empty(),
            },
        ),
{
    lemma_entries_roundtrip(x.entries);
}

/// Every index value has its fixed-size fields at their sizes.
pub proof fn lemma_index_wf(index: &MarketplaceIndex)
    ensures
        index_wf(index@),
{
    assert forall|i: int| 0 <= i < index@.entries.len() implies entry_wf(
        #[trigger] index@.entries[i],
    ) by {
        let e = index.entries@[i];
        assert forall|j: int| 0 <= j < e@.releases.len() implies release_wf(
            #[trigger] e@.releases[j],
        ) by {
            let r = e.releases@[j];
            assert(r.manifest_hash@.len() == 32);
            assert(r.package_hash@.len() == 32);
        }
    }
}

proof fn lemma_releases_spec_wf(rs: Seq<ReleaseJsonModel>)
    requires
        releases_spec(rs) is Ok,
    ensures
        forall|i: int|
            0 <= i < (releases_spec(rs)->Ok_0).len() ==> release_wf(
                #[trigger] (releases_spec(rs)->Ok_0)[i],
            ),
    decreases rs.len(),
{
    if rs.len() > 0 {
        lemma_releases_spec_wf(rs.drop_last());
        let done = releases_spec(rs.drop_last())->Ok_0;
        let all = releases_spec(rs)->Ok_0;
        assert forall|i: int| 0 <= i < all.len() implies release_wf(#[trigger] all[i]) by {
            if i < done.len() {
                assert(all[i] == done[i]);
            }
        }
    }
}

proof fn lemma_entries_spec_wf(es: Seq<EntryJsonModel>)
    requires
        entries_spec(es) is Ok,
    ensures
        forall|i: int|
            0 <= i < (entries_spec(es)->Ok_0).len() ==> entry_wf(
                #[trigger] (entries_spec(es)->Ok_0)[i],
            ),
    decreases es.len(),
{
    if es.len() > 0 {
        lemma_entries_spec_wf(es.drop_last());
        lemma_releases_spec_wf(es.last().releases);
        let done = entries_spec(es.drop_last())->Ok_0;
        let all = entries_spec(es)->Ok_0;
        assert forall|i: int| 0 <= i < all.len() implies entry_wf(#[trigger] all[i]) by {
            if i < done.len() {
                assert(all[i] == done[i]);
            }
        }
    }
}

/// The normalised JSON that `sign --json-out` writes projects to the
/// very index that was signed: editing nothing and signing again gives
/// the same canonical index.
pub proof fn law_normalised_json_is_stable(j: IndexJsonModel, operator_pubkey: Seq<u8>)
    requires
        index_spec(j, operator_pubkey) is Ok,
        operator_pubkey.len() == 32,
    ensures
        index_spec(index_json_spec(index_spec(j, operator_pubkey)->Ok_0), operator_pubkey)
            == index_spec(j, operator_pubkey),
{
    let x = index_spec(j, operator_pubkey)->Ok_0;
    lemma_entries_spec_wf(j.entries);
    law_json_reprojection_roundtrip(x);
}

/// A release in the spelling that the JSON re-projection writes: hashes
/// and signature as lowercase hex.
pub open spec fn release_json_canonical(r: ReleaseJsonModel) -> bool {
    &&& is_lower_hex(r.manifest_hash)
    &&& is_lower_hex(r.package_hash)
    &&& is_lower_hex(r.publisher_signature)
}

/// An entry in the spelling that the JSON re-projection writes: ids and
/// keys as lowercase hex, the amount as a plain decimal, the contract
/// address empty or `0x` and non-empty lowercase hex, and its releases
/// likewise.
pub open spec fn entry_json_canonical(e: EntryJsonModel) -> bool {
    &&& is_lower_hex(e.capsule_id)
    &&& is_lower_hex(e.publisher_pubkey)
    &&& is_canonical_decimal(e.price.amount_atomic)
    &&& (e.token.contract_address.len() == 0 || (e.token.contract_address.len() > 2
        && e.token.contract_address[0] == '0' && e.token.contract_address[1] == 'x'
        && is_lower_hex(e.token.contract_address.skip(2))))
    &&& forall|i: int| 0 <= i < e.releases.len() ==> release_json_canonical(#[trigger] e.releases[i])
}

proof fn lemma_release_canonical(r: ReleaseJsonModel)
    requires
        release_spec(r) is Ok,
        release_json_canonical(r),
    ensures
        release_json_spec(release_spec(r)->Ok_0) == r,
{
    lemma_lower_hex_canonical(r.manifest_hash);
    lemma_lower_hex_canonical(r.package_hash);
    lemma_lower_hex_canonical(r.publisher_signature);
    if r.publisher_signature.len() == 0 {
        assert(hex_encode_spec(Seq::<u8>::empty()) =~= r.publisher_signature);
    }
}

proof fn lemma_releases_canonical(rs: Seq<ReleaseJsonModel>)
    requires
        releases_spec(rs) is Ok,
        forall|i: int| 0 <= i < rs.len() ==> release_json_canonical(#[trigger] rs[i]),
    ensures
        (releases_spec(rs)->Ok_0).map_values(|r: CapsuleReleaseModel| release_json_spec(r)) == rs,
    decreases rs.len(),
{
    let out = releases_spec(rs)->Ok_0;
    if rs.len() > 0 {
        let p = rs.drop_last();
        assert forall|i: int| 0 <= i < p.len() implies release_json_canonical(#[trigger] p[i]) by {
            assert(p[i] == rs[i]);
        }
        lemma_releases_canonical(p);
        assert(release_json_canonical(rs[rs.len() - 1]));
        lemma_release_canonical(rs.last());
        let done = releases_spec(p)->Ok_0;
        assert(out == done.push(release_spec(rs.last())->Ok_0));
        let jm = out.map_values(|r: CapsuleReleaseModel| release_json_spec(r));
        assert(jm =~= rs) by {
            assert forall|i: int| 0 <= i < rs.len() implies #[trigger] jm[i] == rs[i] by {
                if i < p.len() {
                    assert(out[i] == done[i]);
                    assert(done.map_values(|r: CapsuleReleaseModel| release_json_spec(r))[i] == p[i]);
                }
            }
        }
    } else {
        assert(out.map_values(|r: CapsuleReleaseModel| release_json_spec(r)) =~= rs);
    }
}

/// Projecting an entry in canonical spelling to the canonical index and
/// back gives the same JSON entry, field for field and release for
/// release.
pub proof fn law_canonical_entry_json_roundtrip(e: EntryJsonModel)
    requires
        entry_spec(e) is Ok,
        entry_json_canonical(e),
    ensures
        entry_json_spec(entry_spec(e)->Ok_0) == e,
{
    let m = entry_spec(e)->Ok_0;
    lemma_lower_hex_canonical(e.capsule_id);
    lemma_lower_hex_canonical(e.publisher_pubkey);
    lemma_canonical_decimal(e.price.amount_atomic);
    assert(is_digit(e.price.amount_atomic[0]));
    lemma_releases_canonical(e.releases);
    let ca = e.token.contract_address;
    if ca.len() > 0 {
        let h = ca.skip(2);
        lemma_lower_hex_canonical(h);
        assert(h[1] == ca[3]);
        assert(('0' <= h[1] && h[1] <= '9') || ('a' <= h[1] && h[1] <= 'f'));
        assert(strip_hex_prefixes(h) == h);
        assert(strip_hex_prefixes(ca) == h);
        reveal_strlit("0x");
        assert("0x"@ + h =~= ca);
        assert(contract_address_text(m.token.contract_address) == ca);
    } else {
        assert(contract_address_text(m.token.contract_address) =~= ca);
    }
    let am = e.price.amount_atomic;
    assert(am[0] != '+');
    assert(parse_unsigned(am, u128::MAX as nat) == Some(crate::text::digits_value(am)));
    assert(m.price.amount_atomic as nat == crate::text::digits_value(am));
    let j = entry_json_spec(m);
    assert(j.price.amount_atomic == am);
    assert(j.price.kind == e.price.kind);
    assert(j.price == e.price);
    assert(j.token == e.token);
    assert(j.releases == e.releases);
    assert(j.capsule_id == e.capsule_id);
    assert(j.publisher_pubkey == e.publisher_pubkey);
}

proof fn lemma_entries_canonical(es: Seq<EntryJsonModel>)
    requires
        entries_spec(es) is Ok,
        forall|i: int| 0 <= i < es.len() ==> entry_json_canonical(#[trigger] es[i]),
    ensures
        (entries_spec(es)->Ok_0).map_values(|e: MarketplaceEntryModel| entry_json_spec(e)) == es,
    decreases es.len(),
{
    let out = entries_spec(es)->Ok_0;
    if es.len() > 0 {
        let p = es.drop_last();
        assert forall|i: int| 0 <= i < p.len() implies entry_json_canonical(#[trigger] p[i]) by {
            assert(p[i] == es[i]);
        }
        lemma_entries_canonical(p);
        assert(entry_json_canonical(es[es.len() - 1]));
        law_canonical_entry_json_roundtrip(es.last());
        let done = entries_spec(p)->Ok_0;
        assert(out == done.push(entry_spec(es.last())->Ok_0));
        let jm = out.map_values(|e: MarketplaceEntryModel| entry_json_spec(e));
        assert(jm =~= es) by {
            assert forall|i: int| 0 <= i < es.len() implies #[trigger] jm[i] == es[i] by {
                if i < p.len() {
                    assert(out[i] == done[i]);
                    assert(done.map_values(|e: MarketplaceEntryModel| entry_json_spec(e))[i] == p[i]);
                }
            }
        }
    } else {
        assert(out.map_values(|e: MarketplaceEntryModel| entry_json_spec(e)) =~= es);
    }
}

/// Projecting a JSON index in canonical spelling to the canonical index
/// and back gives the same JSON index: the projection is the identity
/// on canonical JSON.
pub proof fn law_canonical_index_json_roundtrip(j: IndexJsonModel, operator_pubkey: Seq<u8>)
    requires
        index_spec(j, operator_pubkey) is Ok,
        forall|i: int| 0 <= i < j.entries.len() ==> entry_json_canonical(#[trigger] j.entries[i]),
    ensures
        index_json_spec(index_spec(j, operator_pubkey)->Ok_0) == j,
{
    lemma_entries_canonical(j.entries);
}

} // verus!
