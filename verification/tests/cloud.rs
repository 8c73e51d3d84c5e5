use remo::appliance::{aircon_settings_path, find_aircon, Appliance};
use remo::device::Device;
use remo::enums::{AirconModeType, TemperatureUnit};
use remo::error::{classify_status, u16_decimal, APIError};
use remo::user::User;

fn appliance(nickname: &str, kind: &str) -> Appliance {
    Appliance {
        id: format!("id-{nickname}"),
        device: Device {
            id: "dev-1".to_string(),
            name: "Living Room".to_string(),
            temperature_offset: 0,
            humidity_offset: 0,
            created_at: "2020-01-01T00:00:00Z".to_string(),
            updated_at: "2020-01-01T00:00:00Z".to_string(),
            firmware_version: "Remo/1.0.62-gabbf5bd".to_string(),
        },
        model: None,
        nickname: nickname.to_string(),
        image: "ico_io".to_string(),
        kind: kind.to_string(),
        settings: None,
        aircon: None,
        signals: vec![],
    }
}

#[test]
fn aircon_mode_names() {
    assert_eq!(AirconModeType::Cool.as_str(), "cool");
    assert_eq!(AirconModeType::Warm.as_str(), "warm");
    assert_eq!(AirconModeType::Dry.as_str(), "dry");
    assert_eq!(AirconModeType::Blow.as_str(), "blow");
    assert_eq!(AirconModeType::Auto.as_str(), "auto");
}

#[test]
fn temperature_unit_names() {
    assert_eq!(TemperatureUnit::Celcius.as_str(), "c");
    assert_eq!(TemperatureUnit::Fahrenheit.as_str(), "f");
}

#[test]
fn success_status_passes() {
    assert!(classify_status(200).is_ok());
}

#[test]
fn unauthorized_status_is_auth_error() {
    assert!(matches!(classify_status(401), Err(APIError::AuthError)));
}

#[test]
fn other_statuses_report_their_code() {
    match classify_status(404) {
        Err(APIError::Error { error }) => {
            assert_eq!(error, "Returned with non-200 code: 404");
        }
        other => panic!("unexpected classification: {other:?}"),
    }
    match classify_status(500) {
        Err(APIError::Error { error }) => {
            assert_eq!(error, "Returned with non-200 code: 500");
        }
        other => panic!("unexpected classification: {other:?}"),
    }
}

#[test]
fn transport_errors_carry_their_description() {
    let e = APIError::HTTPError { error: "connection refused".to_string() };
    match e {
        APIError::HTTPError { error } => assert_eq!(error, "connection refused"),
        other => panic!("unexpected variant: {other:?}"),
    }
}

#[test]
fn decimal_rendering() {
    assert_eq!(u16_decimal(0), "0");
    assert_eq!(u16_decimal(7), "7");
    assert_eq!(u16_decimal(10), "10");
    assert_eq!(u16_decimal(404), "404");
    assert_eq!(u16_decimal(65535), "65535");
}

#[test]
fn find_aircon_picks_first_ac() {
    let appliances = vec![
        appliance("tv", "IR"),
        appliance("bedroom-ac", "AC"),
        appliance("living-ac", "AC"),
    ];
    let found = find_aircon(&appliances).expect("an AC is present");
    assert_eq!(found.nickname, "bedroom-ac");
}

#[test]
fn find_aircon_without_ac_is_none() {
    let appliances = vec![appliance("tv", "IR"), appliance("light", "IR")];
    assert!(find_aircon(&appliances).is_none());
    assert!(find_aircon(&vec![]).is_none());
}

#[test]
fn aircon_settings_endpoint_path() {
    assert_eq!(
        aircon_settings_path("abc123"),
        "/1/appliances/abc123/aircon_settings"
    );
    assert_eq!(aircon_settings_path(""), "/1/appliances//aircon_settings");
}

#[test]
fn user_holds_its_fields() {
    let user = User { id: "u1".to_string(), nickname: "uetchy".to_string() };
    assert_eq!(user.nickname, "uetchy");
    assert!(user.nickname.len() > 0);
}
