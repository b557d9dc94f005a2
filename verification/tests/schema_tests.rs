use uc_api::core_web::ApiResponse;
use uc_api::ws::intg::DriverEvent;
use uc_api::ws::intg::R2Request as LegacyR2Request;
use uc_api::intg::ws::Oauth2AuthorizationMsgData;
use uc_api::intg::ws::R2Request;
use uc_api::intg::DeviceState;
use uc_api::intg::DriverType;
use uc_api::intg::Integration;
use uc_api::intg::IntegrationDriver;
use uc_api::intg::IntegrationDriverUpdate;
use uc_api::intg::IntegrationUpdate;
use uc_api::intg::IotClass;
use uc_api::model::intg::IntegrationSetupError;
use uc_api::model::intg::IntegrationSetupState;
use uc_api::model::Oauth2Token;

#[test]
fn api_response_new() {
    let r = ApiResponse::new("OK", "all good");
    assert_eq!(Some("OK"), r.code);
    assert_eq!(Some("all good"), r.message);
}

fn sample_token() -> Oauth2Token {
    Oauth2Token {
        access_token: "token-value".to_string(),
        token_type: "Bearer".to_string(),
        expires_in: Some(3600),
        expires_at: None,
        refresh_token: None,
        scope: None,
    }
}

#[test]
fn oauth2_authorization_ok() {
    let data = vec![("intg".to_string(), "demo".to_string())];
    let msg = Oauth2AuthorizationMsgData::ok(data.clone(), sample_token());
    assert_eq!(data, msg.client_data);
    assert_eq!(None, msg.error_code);
    assert_eq!(None, msg.error_description);
    assert!(msg.token.is_some());
}

#[test]
fn oauth2_authorization_error() {
    let data = vec![("intg".to_string(), "demo".to_string())];
    let msg = Oauth2AuthorizationMsgData::error(data.clone(), "access_denied", Some("nope"));
    assert_eq!(data, msg.client_data);
    assert_eq!(Some("access_denied".to_string()), msg.error_code);
    assert_eq!(Some("nope".to_string()), msg.error_description);
    assert!(msg.token.is_none());

    let msg = Oauth2AuthorizationMsgData::error(vec![], "denied", None::<&str>);
    assert_eq!(None, msg.error_description);
}

#[test]
fn integration_driver_update_from_driver() {
    let driver = IntegrationDriver {
        driver_id: "drv1".to_string(),
        name: vec![("en".to_string(), "Demo".to_string())],
        driver_type: DriverType::External,
        driver_url: "ws://localhost:9000".to_string(),
        token: None,
        auth_method: None,
        pwd_protected: Some(false),
        version: "1.2.3".to_string(),
        min_core_api: None,
        icon: Some("uc:demo".to_string()),
        enabled: true,
        description: None,
        developer: None,
        home_page: None,
        device_discovery: false,
        instance_count: Some(1),
        setup_data_schema: serde_json::Value::Null,
        release_date: Some("2023-02-01".to_string()),
        driver_state: None,
    };
    let update = IntegrationDriverUpdate::from(driver);
    assert_eq!(Some("drv1".to_string()), update.driver_id);
    assert_eq!(Some("ws://localhost:9000".to_string()), update.driver_url);
    assert_eq!(Some("1.2.3".to_string()), update.version);
    assert_eq!(Some(true), update.enabled);
    assert_eq!(Some(false), update.device_discovery);
    assert_eq!(Some("2023-02-01".to_string()), update.release_date);
    assert!(update.manifest.is_none());
    assert!(update.token.is_none());
}

#[test]
fn integration_update_from_integration() {
    let intg = Integration {
        integration_id: "intg1".to_string(),
        driver_id: "drv1".to_string(),
        device_id: None,
        name: vec![("en".to_string(), "Demo".to_string())],
        icon: None,
        enabled: true,
        setup_data: serde_json::Map::new(),
        device_state: Some(DeviceState::Connected),
    };
    let update = IntegrationUpdate::from(intg);
    assert_eq!(Some("intg1".to_string()), update.integration_id);
    assert_eq!(Some("drv1".to_string()), update.driver_id);
    assert_eq!(None, update.device_id);
    assert_eq!(Some(true), update.enabled);
    assert!(update.setup_data.is_some());
}

#[test]
fn state_enums_use_screaming_snake_case() {
    assert_eq!("UNKNOWN", DeviceState::Unknown.as_str());
    assert_eq!("NOT_CONFIGURED", uc_api::intg::DriverState::NotConfigured.as_str());
    assert_eq!("EXTERNAL", DriverType::External.as_str());
    assert_eq!(Some(DeviceState::Connected), DeviceState::from_str("CONNECTED"));
    assert_eq!(None, DeviceState::from_str("connected"));
}

#[test]
fn setup_state_wire_names() {
    assert_eq!("OK", IntegrationSetupState::Okay.as_str());
    assert_eq!(Some(IntegrationSetupState::Okay), IntegrationSetupState::from_str("OK"));
    assert_eq!("NONE", IntegrationSetupError::NoError.as_str());
    assert_eq!(Some(IntegrationSetupError::NoError), IntegrationSetupError::from_str("NONE"));
    assert_eq!("WAIT_USER_ACTION", IntegrationSetupState::WaitUserAction.as_str());
}

#[test]
fn iot_class_wire_names() {
    assert_eq!("assumed_state", IotClass::AssumedState.as_str());
    assert_eq!(Some(IotClass::CloudPush), IotClass::from_str("cloud_push"));
}

#[test]
fn r2_request_names_and_response_messages() {
    assert_eq!("subscribe_events", R2Request::SubscribeEvents.as_str());
    assert_eq!(Some(R2Request::SubscribeEvents), R2Request::from_str("subscribe_events"));
    assert_eq!(Some("result"), R2Request::SubscribeEvents.response_msg());
    assert_eq!(Some("driver_version"), R2Request::GetDriverVersion.response_msg());
    assert_eq!(None, R2Request::GetDeviceState.response_msg());
    assert_eq!(Some("entity_states"), R2Request::GetEntityStates.response_msg());
}

#[test]
fn legacy_enums_keep_their_names() {
    assert_eq!("setup_device", LegacyR2Request::SetupDevice.as_str());
    assert_eq!("device_setup_progress", DriverEvent::DeviceSetupProgress.as_str());
    assert_eq!(
        Some(LegacyR2Request::SubscribeEvents),
        LegacyR2Request::from_str("subscribe_events")
    );
}
