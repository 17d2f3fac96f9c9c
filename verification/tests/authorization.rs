use ocpp_types::types::authorization::AuthorizationData;
use ocpp_types::types::authorization::IdTagInfo;
use ocpp_types::types::datetime::UtcTimestamp;
use ocpp_types::types::enumerations::AuthorizationStatus;
use ocpp_types::types::id_token::IdToken;

#[test]
fn authorization_test_with_valid_id_token() {
    let token = String::from("abcd-01234");
    let id_token = IdToken::new(token).unwrap();

    assert_eq!(id_token, IdToken::new(String::from("abcd-01234")).unwrap());
}

#[test]
fn authorization_data_test_with_valid_id_token() {
    let token = String::from("abcd-01234");
    let id_token = IdToken::new(token).unwrap();

    assert_eq!(id_token, IdToken::new(String::from("abcd-01234")).unwrap());
}

#[test]
fn id_tag_info_test_with_valid_id_token() {
    let token = String::from("abcd-01234");
    let id_token = IdToken::new(token).unwrap();

    assert_eq!(id_token, IdToken::new(String::from("abcd-01234")).unwrap());
}

#[test]
fn authorization_data_preserves_absent_metadata() {
    let id_tag = IdToken::new(String::from("abcd-01234")).unwrap();
    let record = AuthorizationData::new(id_tag, None);

    assert!(record.id_tag_info.is_none());
}

#[test]
fn absent_metadata_differs_from_present_metadata_with_absent_fields() {
    let deleted = AuthorizationData::new(
        IdToken::new(String::from("abcd-01234")).unwrap(),
        None,
    );
    let updated = AuthorizationData::new(
        IdToken::new(String::from("abcd-01234")).unwrap(),
        Some(IdTagInfo::new(AuthorizationStatus::Accepted, None, None)),
    );

    assert!(deleted.id_tag_info.is_none());
    assert!(updated.id_tag_info.is_some());
    let info = updated.id_tag_info.unwrap();
    assert!(info.expiry_date.is_none());
    assert!(info.parent_id_tag.is_none());
    assert_eq!(info.status, AuthorizationStatus::Accepted);
}

#[test]
fn id_tag_info_holds_every_field_as_given() {
    let parent = IdToken::new(String::from("FLEET-CARD-7")).unwrap();
    let expiry = UtcTimestamp::new(1735689600000);
    let info = IdTagInfo::new(AuthorizationStatus::Blocked, Some(expiry), Some(parent));

    assert_eq!(info.status, AuthorizationStatus::Blocked);
    assert_eq!(info.expiry_date, Some(UtcTimestamp::new(1735689600000)));
    let parent_tag = info.parent_id_tag.unwrap();
    assert!(parent_tag == IdToken::new(String::from("fleet-card-7")).unwrap());
    assert_eq!(parent_tag.raw(), "FLEET-CARD-7");
}

#[test]
fn authorization_record_keeps_its_token() {
    let record = AuthorizationData::new(
        IdToken::new(String::from("AbCd-01234")).unwrap(),
        Some(IdTagInfo::new(AuthorizationStatus::ConcurrentTx, None, None)),
    );

    assert_eq!(record.id_tag.raw(), "AbCd-01234");
    assert!(record.id_tag == IdToken::new(String::from("ABCD-01234")).unwrap());
}
