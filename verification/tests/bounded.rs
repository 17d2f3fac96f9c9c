use ocpp_types::types::bounded::CiString20Type;
use ocpp_types::types::bounded::CiString25Type;
use ocpp_types::types::bounded::CiString255Type;
use ocpp_types::types::bounded::CiString50Type;
use ocpp_types::types::bounded::CiString500Type;
use ocpp_types::ValidationError;

#[test]
fn bounded_string_keeps_raw_value_unchanged() {
    let value = CiString20Type::new(String::from("  MixedCase Vendor ")).unwrap();

    assert_eq!(value.raw(), "  MixedCase Vendor ");
}

#[test]
fn bounded_string_equality_is_case_sensitive() {
    let lower = CiString20Type::new(String::from("vendor-id")).unwrap();
    let upper = CiString20Type::new(String::from("VENDOR-ID")).unwrap();
    let again = CiString20Type::new(String::from("vendor-id")).unwrap();

    assert!(lower != upper);
    assert!(lower == again);
}

#[test]
fn bounded_string_round_trip_yields_equal_value() {
    let first = CiString50Type::new(String::from("FirmwareVersion-1.2")).unwrap();
    let second = CiString50Type::new(String::from(first.raw())).unwrap();

    assert!(first == second);
}

#[test]
fn bounded_string_boundary_at_twenty() {
    assert!(CiString20Type::new("a".repeat(20)).is_ok());
    assert_eq!(
        CiString20Type::new("a".repeat(21)).unwrap_err(),
        ValidationError::TooLong { actual_length: 21, max_length: 20 },
    );
}

#[test]
fn bounded_string_boundary_at_twenty_five() {
    assert!(CiString25Type::new("b".repeat(25)).is_ok());
    assert_eq!(
        CiString25Type::new("b".repeat(26)).unwrap_err(),
        ValidationError::TooLong { actual_length: 26, max_length: 25 },
    );
}

#[test]
fn bounded_string_boundary_at_fifty() {
    assert!(CiString50Type::new("c".repeat(50)).is_ok());
    assert_eq!(
        CiString50Type::new("c".repeat(51)).unwrap_err(),
        ValidationError::TooLong { actual_length: 51, max_length: 50 },
    );
}

#[test]
fn bounded_string_boundary_at_two_hundred_fifty_five() {
    assert!(CiString255Type::new("d".repeat(255)).is_ok());
    assert_eq!(
        CiString255Type::new("d".repeat(256)).unwrap_err(),
        ValidationError::TooLong { actual_length: 256, max_length: 255 },
    );
}

#[test]
fn bounded_string_boundary_at_five_hundred() {
    assert!(CiString500Type::new("e".repeat(500)).is_ok());
    assert_eq!(
        CiString500Type::new("e".repeat(501)).unwrap_err(),
        ValidationError::TooLong { actual_length: 501, max_length: 500 },
    );
}

#[test]
fn bounded_string_empty_value_is_accepted() {
    let value = CiString20Type::new(String::new()).unwrap();

    assert_eq!(value.raw(), "");
}

#[test]
fn bounded_string_length_counts_characters_not_bytes() {
    // Twenty-five two-byte characters: within the 25-character bound even
    // though the UTF-8 encoding takes 50 bytes.
    assert!(CiString25Type::new("ü".repeat(25)).is_ok());
    assert_eq!(
        CiString25Type::new("ü".repeat(26)).unwrap_err(),
        ValidationError::TooLong { actual_length: 26, max_length: 25 },
    );
}
