//! The editable JSON form of the marketplace index, as publishers and
//! operators write it. Hex-encoded fields stay text here and are
//! converted at the boundary to the canonical index; numeric and enum
//! fields keep the JSON spelling so that a hand-edited file is the
//! authority.

use vstd::prelude::*;

verus! {

pub struct IndexJson {
    pub schema_version: u32,
    pub operator_id: String,
    pub published_at_ms: u64,
    pub serial: u64,
    pub entries: Vec<EntryJson>,
}

pub struct EntryJson {
    pub listing_id: String,
    pub capsule_id: String,
    pub name: String,
    pub publisher_name: String,
    pub publisher_pubkey: String,
    pub description: String,
    pub price: PriceJson,
    pub token: TokenJson,
    pub releases: Vec<ReleaseJson>,
}

pub struct PriceJson {
    pub kind: String,
    pub amount_atomic: String,
    pub period_seconds: u64,
}

pub struct TokenJson {
    pub symbol: String,
    pub decimals: u8,
    pub chain_id: u64,
    /// Empty when the JSON leaves it out.
    pub contract_address: String,
}

pub struct ReleaseJson {
    pub release_id: String,
    pub manifest_hash: String,
    pub package_hash: String,
    pub package_url: String,
    /// Empty when the JSON leaves it out.
    pub publisher_signature: String,
    pub supported_arches: Vec<String>,
    pub kernel_abi_min: u32,
    pub required_capabilities: Vec<String>,
    pub validation: ValidationJson,
}

pub struct ValidationJson {
    pub status: String,
    /// Empty when the JSON leaves it out.
    pub note: String,
    pub validator_id: String,
    pub validated_at_ms: u64,
}

pub struct IndexJsonModel {
    pub schema_version: u32,
    pub operator_id: Seq<char>,
    pub published_at_ms: u64,
    pub serial: u64,
    pub entries: Seq<EntryJsonModel>,
}

pub struct EntryJsonModel {
    pub listing_id: Seq<char>,
    pub capsule_id: Seq<char>,
    pub name: Seq<char>,
    pub publisher_name: Seq<char>,
    pub publisher_pubkey: Seq<char>,
    pub description: Seq<char>,
    pub price: PriceJsonModel,
    pub token: TokenJsonModel,
    pub releases: Seq<ReleaseJsonModel>,
}

pub struct PriceJsonModel {
    pub kind: Seq<char>,
    pub amount_atomic: Seq<char>,
    pub period_seconds: u64,
}

pub struct TokenJsonModel {
    pub symbol: Seq<char>,
    pub decimals: u8,
    pub chain_id: u64,
    pub contract_address: Seq<char>,
}

pub struct ReleaseJsonModel {
    pub release_id: Seq<char>,
    pub manifest_hash: Seq<char>,
    pub package_hash: Seq<char>,
    pub package_url: Seq<char>,
    pub publisher_signature: Seq<char>,
    pub supported_arches: Seq<Seq<char>>,
    pub kernel_abi_min: u32,
    pub required_capabilities: Seq<Seq<char>>,
    pub validation: ValidationJsonModel,
}

pub struct ValidationJsonModel {
    pub status: Seq<char>,
    pub note: Seq<char>,
    pub validator_id: Seq<char>,
    pub validated_at_ms: u64,
}

impl View for PriceJson {
    type V = PriceJsonModel;

    open spec fn view(&self) -> PriceJsonModel {
        PriceJsonModel {
            kind: self.kind@,
            amount_atomic: self.amount_atomic@,
            period_seconds: self.period_seconds,
        }
    }
}

impl View for TokenJson {
    type V = TokenJsonModel;

    open spec fn view(&self) -> TokenJsonModel {
        TokenJsonModel {
            symbol: self.symbol@,
            decimals: self.decimals,
            chain_id: self.chain_id,
            contract_address: self.contract_address@,
        }
    }
}

impl View for ValidationJson {
    type V = ValidationJsonModel;

    open spec fn view(&self) -> ValidationJsonModel {
        ValidationJsonModel {
            status: self.status@,
            note: self.note@,
            validator_id: self.validator_id@,
            validated_at_ms: self.validated_at_ms,
        }
    }
}

impl View for ReleaseJson {
    type V = ReleaseJsonModel;

    open spec fn view(&self) -> ReleaseJsonModel {
        ReleaseJsonModel {
            release_id: self.release_id@,
            manifest_hash: self.manifest_hash@,
            package_hash: self.package_hash@,
            package_url: self.package_url@,
            publisher_signature: self.publisher_signature@,
            supported_arches: crate::abi::strings_view(self.supported_arches@),
            kernel_abi_min: self.kernel_abi_min,
            required_capabilities: crate::abi::strings_view(self.required_capabilities@),
            validation: self.validation@,
        }
    }
}

impl View for EntryJson {
    type V = EntryJsonModel;

    open spec fn view(&self) -> EntryJsonModel {
        EntryJsonModel {
            listing_id: self.listing_id@,
            capsule_id: self.capsule_id@,
            name: self.name@,
            publisher_name: self.publisher_name@,
            publisher_pubkey: self.publisher_pubkey@,
            description: self.description@,
            price: self.price@,
            token: self.token@,
            releases: self.releases@.map_values(|r: ReleaseJson| r@),
        }
    }
}

impl View for IndexJson {
    type V = IndexJsonModel;

    open spec fn view(&self) -> IndexJsonModel {
        IndexJsonModel {
            schema_version: self.schema_version,
            operator_id: self.operator_id@,
            published_at_ms: self.published_at_ms,
            serial: self.serial,
            entries: self.entries@.map_values(|e: EntryJson| e@),
        }
    }
}

} // verus!
