//! Each JSON spelling of a price kind or a validation status names its
//! own value, in both directions.

use vstd::prelude::*;

use crate::abi::{PriceKind, ValidationStatus};
use crate::error::ErrorModel;
use crate::json::decode::{price_kind_text, validation_status_text};
use crate::json::encode::{price_spec, validation_spec};
use crate::schema::{PriceJsonModel, ValidationJsonModel};

verus! {

proof fn reveal_kind_words()
    ensures
        "free"@.len() == 4,
        "one_time"@.len() == 8,
        "subscription"@.len() == 12,
        "usage_metered"@.len() == 13,
{
    reveal_strlit("free");
    reveal_strlit("one_time");
    reveal_strlit("subscription");
    reveal_strlit("usage_metered");
    assert("free"@.len() == 4);
    assert("one_time"@.len() == 8);
    assert("subscription"@.len() == 12);
    assert("usage_metered"@.len() == 13);
}

/// A converted price has the kind that its JSON `kind` spells:
/// `free` is `Free`, `one_time` is `OneTime`, `subscription` is
/// `Subscription`, `usage_metered` is `UsageMetered`; any other spelling
/// is refused as an unknown `price.kind` naming that spelling.
pub proof fn law_price_kind_spelling(p: PriceJsonModel)
    ensures
        price_spec(p) matches Ok(m) ==> {
            &&& (m.kind == PriceKind::Free <==> p.kind == "free"@)
            &&& (m.kind == PriceKind::OneTime <==> p.kind == "one_time"@)
            &&& (m.kind == PriceKind::Subscription <==> p.kind == "subscription"@)
            &&& (m.kind == PriceKind::UsageMetered <==> p.kind == "usage_metered"@)
            &&& m.period_seconds == p.period_seconds
        },
        (p.kind != "free"@ && p.kind != "one_time"@ && p.kind != "subscription"@ && p.kind
            != "usage_metered"@) <==> price_spec(p) == Err::<crate::abi::PriceModel, ErrorModel>(
            ErrorModel::UnknownEnum { field: "price.kind"@, value: p.kind },
        ),
{
    reveal_kind_words();
}

/// The JSON spelling of each price kind is its own name.
pub proof fn law_price_kind_text_names_kind(k: PriceKind)
    ensures
        (price_kind_text(k) == "free"@) <==> k == PriceKind::Free,
        (price_kind_text(k) == "one_time"@) <==> k == PriceKind::OneTime,
        (price_kind_text(k) == "subscription"@) <==> k == PriceKind::Subscription,
        (price_kind_text(k) == "usage_metered"@) <==> k == PriceKind::UsageMetered,
{
    reveal_kind_words();
}

proof fn reveal_status_words()
    ensures
        "unknown"@.len() == 7,
        "pending"@.len() == 7,
        "validated"@.len() == 9,
        "rejected"@.len() == 8,
        "unknown"@ != "pending"@,
{
    reveal_strlit("unknown");
    reveal_strlit("pending");
    reveal_strlit("validated");
    reveal_strlit("rejected");
    assert("unknown"@.len() == 7);
    assert("pending"@.len() == 7);
    assert("validated"@.len() == 9);
    assert("rejected"@.len() == 8);
    assert("unknown"@[0] != "pending"@[0]);
}

/// A converted validation report has the status that its JSON `status`
/// spells, and carries its note, validator and time unchanged; any other
/// spelling is refused as an unknown `validation.status`.
pub proof fn law_validation_status_spelling(v: ValidationJsonModel)
    ensures
        validation_spec(v) matches Ok(m) ==> {
            &&& (m.status == ValidationStatus::Unknown <==> v.status == "unknown"@)
            &&& (m.status == ValidationStatus::Pending <==> v.status == "pending"@)
            &&& (m.status == ValidationStatus::Validated <==> v.status == "validated"@)
            &&& (m.status == ValidationStatus::Rejected <==> v.status == "rejected"@)
            &&& m.note == v.note
            &&& m.validator_id == v.validator_id
            &&& m.validated_at_ms == v.validated_at_ms
        },
        (v.status != "unknown"@ && v.status != "pending"@ && v.status != "validated"@ && v.status
            != "rejected"@) <==> validation_spec(v) == Err::<
            crate::abi::ValidationReportModel,
            ErrorModel,
        >(ErrorModel::UnknownEnum { field: "validation.status"@, value: v.status }),
{
    reveal_status_words();
}

/// The JSON spelling of each validation status is its own name.
pub proof fn law_validation_status_text_names_status(s: ValidationStatus)
    ensures
        (validation_status_text(s) == "unknown"@) <==> s == ValidationStatus::Unknown,
        (validation_status_text(s) == "pending"@) <==> s == ValidationStatus::Pending,
        (validation_status_text(s) == "validated"@) <==> s == ValidationStatus::Validated,
        (validation_status_text(s) == "rejected"@) <==> s == ValidationStatus::Rejected,
{
    reveal_status_words();
}

} // verus!
