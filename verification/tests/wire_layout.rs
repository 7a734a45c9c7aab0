use marketplace_index::abi::{PriceKind, ValidationStatus};

#[test]
fn price_kind_discriminants_pin_to_canonical_values() {
    assert_eq!(PriceKind::Free as u8, 0);
    assert_eq!(PriceKind::OneTime as u8, 1);
    assert_eq!(PriceKind::Subscription as u8, 2);
    assert_eq!(PriceKind::UsageMetered as u8, 3);
}

#[test]
fn validation_status_discriminants_pin_to_canonical_values() {
    assert_eq!(ValidationStatus::Unknown as u8, 0);
    assert_eq!(ValidationStatus::Pending as u8, 1);
    assert_eq!(ValidationStatus::Validated as u8, 2);
    assert_eq!(ValidationStatus::Rejected as u8, 3);
}
