use ocpp_types::messages::authorize::AuthorizeReq;
use ocpp_types::messages::boot_notification::BootNotificationReq;
use ocpp_types::messages::data_transfer::DataTransferReq;
use ocpp_types::messages::get_configuration::GetConfigurationConf;
use ocpp_types::types::bounded::CiString20Type;
use ocpp_types::types::bounded::CiString25Type;
use ocpp_types::types::bounded::CiString255Type;
use ocpp_types::types::bounded::CiString500Type;
use ocpp_types::types::bounded::CiString50Type;
use ocpp_types::types::charging_schedule::ChargingSchedule;
use ocpp_types::types::charging_schedule_period::ChargingRate;
use ocpp_types::types::charging_schedule_period::ChargingSchedulePeriod;
use ocpp_types::types::configuration::KeyValue;
use ocpp_types::types::datetime::UtcTimestamp;
use ocpp_types::types::enumerations::ChargingRateUnitType;
use ocpp_types::types::id_token::IdToken;

#[test]
fn authorize_request_carries_the_validated_token() {
    let req = AuthorizeReq { id_tag: IdToken::new(String::from("abcd-01234")).unwrap() };

    assert_eq!(req.id_tag.raw(), "abcd-01234");
}

#[test]
fn boot_notification_request_assembles_from_validated_fields() {
    let req = BootNotificationReq {
        charge_box_serial_number: None,
        charge_point_model: CiString20Type::new(String::from("Model-S")).unwrap(),
        charge_point_serial_number: Some(
            CiString25Type::new(String::from("SN-0001-XYZ")).unwrap(),
        ),
        charge_point_vendor: CiString20Type::new(String::from("VendorCo")).unwrap(),
        firmware_version: Some(CiString50Type::new(String::from("fw 1.2.3")).unwrap()),
        iccid: None,
        imsi: None,
        meter_serial_number: None,
        meter_type: None,
    };

    assert_eq!(req.charge_point_model.raw(), "Model-S");
    assert_eq!(req.charge_point_vendor.raw(), "VendorCo");
    assert!(req.charge_box_serial_number.is_none());
}

#[test]
fn a_field_that_fails_validation_aborts_payload_assembly() {
    // A model name of 21 characters cannot become the 20-character field of
    // a boot notification: the constructor rejects it before any payload
    // could be assembled around it.
    let model = CiString20Type::new("m".repeat(21));

    assert!(model.is_err());
}

#[test]
fn data_transfer_request_carries_optional_bytes() {
    let payload: [u8; 4] = [0x01, 0x02, 0x03, 0x04];
    let req = DataTransferReq {
        vendor_id: CiString255Type::new(String::from("com.example.vendor")).unwrap(),
        message_id: Some(CiString50Type::new(String::from("fetch-schedule")).unwrap()),
        data: Some(&payload),
    };

    assert_eq!(req.vendor_id.raw(), "com.example.vendor");
    assert_eq!(req.data, Some(&payload[..]));
}

#[test]
fn get_configuration_response_distinguishes_unset_values() {
    let conf = GetConfigurationConf {
        configuration_key: Some(vec![KeyValue {
            key: CiString50Type::new(String::from("HeartbeatInterval")).unwrap(),
            readonly: false,
            value: Some(CiString500Type::new(String::from("300")).unwrap()),
        }, KeyValue {
            key: CiString50Type::new(String::from("MeterValueSampleInterval")).unwrap(),
            readonly: true,
            value: None,
        }]),
        unknown_key: None,
    };

    let keys = conf.configuration_key.unwrap();
    assert_eq!(keys.len(), 2);
    assert_eq!(keys[0].value.as_ref().unwrap().raw(), "300");
    assert!(keys[1].value.is_none());
}

#[test]
fn charging_schedule_holds_rates_in_tenths() {
    let schedule = ChargingSchedule {
        duration: Some(3600),
        start_schedule: Some(UtcTimestamp::new(1700000000000)),
        charging_rate_unit: ChargingRateUnitType::A,
        charging_schedule_period: vec![ChargingSchedulePeriod {
            start_period: 0,
            // 32.5 A, held exactly as 325 tenths.
            limit: ChargingRate { tenths: 325 },
            number_phases: Some(3),
        }],
        min_charging_rate: Some(ChargingRate { tenths: 60 }),
    };

    assert_eq!(schedule.charging_schedule_period[0].limit, ChargingRate { tenths: 325 });
    assert_eq!(schedule.min_charging_rate, Some(ChargingRate { tenths: 60 }));
}
