use mechanus_bot::text::{bool_to_text, registry_path, u64_to_decimal};

#[test]
fn decimal_of_numbers() {
    assert_eq!(u64_to_decimal(0), "0");
    assert_eq!(u64_to_decimal(7), "7");
    assert_eq!(u64_to_decimal(10), "10");
    assert_eq!(u64_to_decimal(1234567890), "1234567890");
    assert_eq!(u64_to_decimal(u64::MAX), u64::MAX.to_string());
}

#[test]
fn registry_path_of_guild() {
    assert_eq!(registry_path(782378398168121345), "registries/782378398168121345.json");
    assert_eq!(registry_path(0), "registries/0.json");
    assert_ne!(registry_path(12), registry_path(21));
}

#[test]
fn bool_texts() {
    assert_eq!(bool_to_text(true), "true");
    assert_eq!(bool_to_text(false), "false");
}
