use ocpp_types::types::id_token::IdToken;
use ocpp_types::ValidationError;

#[test]
fn id_token_test_with_valid_id_token() {
    let token = String::from("abcd-01234");
    let id_token = IdToken::new(token).unwrap();

    assert_eq!(id_token, IdToken::new(String::from("abcd-01234")).unwrap());
}

#[test]
fn test_id_token_partial_equals_with_same_token_case() {
    let id_token_a = IdToken::new(String::from("abcd-01234")).unwrap();
    let id_token_b = IdToken::new(String::from("abcd-01234")).unwrap();

    assert_eq!(true, id_token_a == id_token_b);
}

#[test]
fn test_id_token_partial_equals_with_distinct_token_case() {
    let id_token_a = IdToken::new(String::from("abcd-01234")).unwrap();
    let id_token_b = IdToken::new(String::from("ABCD-01234")).unwrap();

    assert_eq!(true, id_token_a == id_token_b);
}

#[test]
fn test_id_token_partial_equals_with_distict_tokens() {
    let id_token_a = IdToken::new(String::from("abcd-01234")).unwrap();
    let id_token_b = IdToken::new(String::from("efgh-01234")).unwrap();

    assert_eq!(false, id_token_a == id_token_b);
}

#[test]
fn id_token_equality_under_every_case_permutation() {
    let lower = IdToken::new(String::from("abcd-01234")).unwrap();
    let upper = IdToken::new(String::from("ABCD-01234")).unwrap();
    let mixed = IdToken::new(String::from("AbCd-01234")).unwrap();

    assert!(lower == upper);
    assert!(upper == mixed);
    assert!(lower == mixed);
}

#[test]
fn id_token_of_twenty_one_characters_reports_too_long() {
    let token = "a".repeat(21);
    let err = IdToken::new(token).unwrap_err();

    assert_eq!(err, ValidationError::TooLong { actual_length: 21, max_length: 20 });
}

#[test]
fn id_token_of_exactly_twenty_characters_is_accepted() {
    let token = "a".repeat(20);

    assert!(IdToken::new(token).is_ok());
}

#[test]
fn id_token_raw_keeps_original_casing() {
    let id_token = IdToken::new(String::from("AbCd-01234")).unwrap();

    assert_eq!(id_token.raw(), "AbCd-01234");
}

#[test]
fn id_token_round_trip_yields_equal_token() {
    let first = IdToken::new(String::from("AbCd-01234")).unwrap();
    let second = IdToken::new(String::from(first.raw())).unwrap();

    assert!(first == second);
    assert_eq!(second.raw(), "AbCd-01234");
}

#[test]
fn id_token_length_counts_characters_not_bytes() {
    // Twenty two-byte characters: within the 20-character bound even though
    // the UTF-8 encoding takes 40 bytes.
    let token = "é".repeat(20);

    assert!(IdToken::new(token).is_ok());
}
