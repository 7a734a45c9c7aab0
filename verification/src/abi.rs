//! The canonical marketplace index that the on-OS decoder reads, as
//! plain values: the shape that the binary encoder walks and signs.

use vstd::prelude::*;

verus! {

/// How a listing is paid for. On the wire the kinds are the bytes 0
/// to 3, in this order.
#[derive(Debug, Clone, Copy, PartialEq, Eq, Structural)]
pub enum PriceKind {
    Free,
    OneTime,
    Subscription,
    UsageMetered,
}

/// How far a release has come through validation. On the wire the
/// statuses are the bytes 0 to 3, in this order.
#[derive(Debug, Clone, Copy, PartialEq, Eq, Structural)]
pub enum ValidationStatus {
    Unknown,
    Pending,
    Validated,
    Rejected,
}

#[derive(Debug, Clone, Copy, PartialEq, Eq, Structural)]
pub struct PriceModel {
    pub kind: PriceKind,
    pub amount_atomic: u128,
    pub period_seconds: u64,
}

#[derive(Debug)]
pub struct TokenInfo {
    pub symbol: String,
    pub decimals: u8,
    pub chain_id: u64,
    pub contract_address: Vec<u8>,
}

#[derive(Debug)]
pub struct ValidationReport {
    pub status: ValidationStatus,
    pub note: String,
    pub validator_id: String,
    pub validated_at_ms: u64,
}

#[derive(Debug)]
pub struct CapsuleRelease {
    pub release_id: String,
    pub manifest_hash: [u8; 32],
    pub package_hash: [u8; 32],
    pub package_url: String,
    pub publisher_signature: Vec<u8>,
    pub supported_arches: Vec<String>,
    pub kernel_abi_min: u32,
    pub required_capabilities: Vec<String>,
    pub validation: ValidationReport,
}

#[derive(Debug)]
pub struct MarketplaceEntry {
    pub listing_id: String,
    pub capsule_id: [u8; 32],
    pub name: String,
    pub publisher_name: String,
    pub publisher_pubkey: [u8; 32],
    pub description: String,
    pub price: PriceModel,
    pub token: TokenInfo,
    pub releases: Vec<CapsuleRelease>,
}

#[derive(Debug)]
pub struct MarketplaceIndex {
    pub schema_version: u32,
    pub operator_id: String,
    pub operator_pubkey: [u8; 32],
    pub published_at_ms: u64,
    pub serial: u64,
    pub entries: Vec<MarketplaceEntry>,
    pub index_signature: Vec<u8>,
}

pub struct TokenInfoModel {
    pub symbol: Seq<char>,
    pub decimals: u8,
    pub chain_id: u64,
    pub contract_address: Seq<u8>,
}

pub struct ValidationReportModel {
    pub status: ValidationStatus,
    pub note: Seq<char>,
    pub validator_id: Seq<char>,
    pub validated_at_ms: u64,
}

pub struct CapsuleReleaseModel {
    pub release_id: Seq<char>,
    pub manifest_hash: Seq<u8>,
    pub package_hash: Seq<u8>,
    pub package_url: Seq<char>,
    pub publisher_signature: Seq<u8>,
    pub supported_arches: Seq<Seq<char>>,
    pub kernel_abi_min: u32,
    pub required_capabilities: Seq<Seq<char>>,
    pub validation: ValidationReportModel,
}

pub struct MarketplaceEntryModel {
    pub listing_id: Seq<char>,
    pub capsule_id: Seq<u8>,
    pub name: Seq<char>,
    pub publisher_name: Seq<char>,
    pub publisher_pubkey: Seq<u8>,
    pub description: Seq<char>,
    pub price: PriceModel,
    pub token: TokenInfoModel,
    pub releases: Seq<CapsuleReleaseModel>,
}

pub struct MarketplaceIndexModel {
    pub schema_version: u32,
    pub operator_id: Seq<char>,
    pub operator_pubkey: Seq<u8>,
    pub published_at_ms: u64,
    pub serial: u64,
    pub entries: Seq<MarketplaceEntryModel>,
    pub index_signature: Seq<u8>,
}

/// The characters of each string of a list.
pub open spec fn strings_view(v: Seq<String>) -> Seq<Seq<char>> {
    v.map_values(|s: String| s@)
}

impl View for PriceModel {
    type V = PriceModel;

    open spec fn view(&self) -> PriceModel {
        *self
    }
}

impl View for TokenInfo {
    type V = TokenInfoModel;

    open spec fn view(&self) -> TokenInfoModel {
        TokenInfoModel {
            symbol: self.symbol@,
            decimals: self.decimals,
            chain_id: self.chain_id,
            contract_address: self.contract_address@,
        }
    }
}

impl View for ValidationReport {
    type V = ValidationReportModel;

    open spec fn view(&self) -> ValidationReportModel {
        ValidationReportModel {
            status: self.status,
            note: self.note@,
            validator_id: self.validator_id@,
            validated_at_ms: self.validated_at_ms,
        }
    }
}

impl View for CapsuleRelease {
    type V = CapsuleReleaseModel;

    open spec fn view(&self) -> CapsuleReleaseModel {
        CapsuleReleaseModel {
            release_id: self.release_id@,
            manifest_hash: self.manifest_hash@,
            package_hash: self.package_hash@,
            package_url: self.package_url@,
            publisher_signature: self.publisher_signature@,
            supported_arches: strings_view(self.supported_arches@),
            kernel_abi_min: self.kernel_abi_min,
            required_capabilities: strings_view(self.required_capabilities@),
            validation: self.validation@,
        }
    }
}

impl View for MarketplaceEntry {
    type V = MarketplaceEntryModel;

    open spec fn view(&self) -> MarketplaceEntryModel {
        MarketplaceEntryModel {
            listing_id: self.listing_id@,
            capsule_id: self.capsule_id@,
            name: self.name@,
            publisher_name: self.publisher_name@,
            publisher_pubkey: self.publisher_pubkey@,
            description: self.description@,
            price: self.price,
            token: self.token@,
            releases: self.releases@.map_values(|r: CapsuleRelease| r@),
        }
    }
}

impl View for MarketplaceIndex {
    type V = MarketplaceIndexModel;

    open spec fn view(&self) -> MarketplaceIndexModel {
        MarketplaceIndexModel {
            schema_version: self.schema_version,
            operator_id: self.operator_id@,
            operator_pubkey: self.operator_pubkey@,
            published_at_ms: self.published_at_ms,
            serial: self.serial,
            entries: self.entries@.map_values(|e: MarketplaceEntry| e@),
            index_signature: self.index_signature@,
        }
    }
}

/// A release whose fixed-size fields have their sizes.
pub open spec fn release_wf(r: CapsuleReleaseModel) -> bool {
    r.manifest_hash.len() == 32 && r.package_hash.len() == 32
}

/// An entry whose fixed-size fields, and those of its releases, have
/// their sizes.
pub open spec fn entry_wf(e: MarketplaceEntryModel) -> bool {
    &&& e.capsule_id.len() == 32
    &&& e.publisher_pubkey.len() == 32
    &&& forall|i: int| 0 <= i < e.releases.len() ==> release_wf(#[trigger] e.releases[i])
}

/// An index whose fixed-size fields, and those of all it holds, have
/// their sizes: every index of the exec type is one.
pub open spec fn index_wf(x: MarketplaceIndexModel) -> bool {
    &&& x.operator_pubkey.len() == 32
    &&& forall|i: int| 0 <= i < x.entries.len() ==> entry_wf(#[trigger] x.entries[i])
}

} // verus!
