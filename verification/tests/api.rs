use home_automation_tapo::settings::{Api, Tapo};
use home_automation_tapo::system::api::api_actor::ApiActor;
use home_automation_tapo::system::api::errors::ApiError;
use home_automation_tapo::system::api::handlers::{
    get_device, health_check, set_device, DeviceCallOutcome, GetDevicePayload, SetDevicePayload,
};

#[test]
fn health_check_works() {
    let response = health_check();
    assert_eq!(response.code, 200);
    assert_eq!(response.message, "OK");
}

#[test]
fn get_device_reports_power_state() {
    let payload = GetDevicePayload { ip_address: String::from("10.0.0.2") };
    let r = get_device(payload, DeviceCallOutcome::Done(Some(true))).expect("a response");
    assert_eq!(r.ip_address, "10.0.0.2");
    assert_eq!(r.device_on, Some(true));
}

#[test]
fn get_device_maps_connect_failure_to_bad_request() {
    let payload = GetDevicePayload { ip_address: String::from("10.0.0.2") };
    let e = get_device(payload, DeviceCallOutcome::ConnectFailed).unwrap_err();
    assert!(matches!(&e, ApiError::BadRequest(m) if m == "failed to connect to the device"));
    assert_eq!(e.status_code(), 400);
    assert_eq!(e.response_body(), "\"failed to connect to the device\"");
}

#[test]
fn get_device_maps_query_failure_to_internal_error() {
    let payload = GetDevicePayload { ip_address: String::from("10.0.0.2") };
    let e = get_device(payload, DeviceCallOutcome::OperationFailed).unwrap_err();
    assert!(matches!(e, ApiError::InternalServerError));
    assert_eq!(e.status_code(), 500);
    assert_eq!(e.response_body(), "\"Internal Server Error\"");
}

#[test]
fn set_device_echoes_requested_state() {
    let payload = SetDevicePayload { ip_address: String::from("10.0.0.2"), device_on: false };
    let r = set_device(payload, DeviceCallOutcome::Done(None)).expect("a response");
    assert_eq!(r.ip_address, "10.0.0.2");
    assert_eq!(r.device_on, Some(false));
}

#[test]
fn set_device_maps_failures_like_get_device() {
    let connect = set_device(
        SetDevicePayload { ip_address: String::from("10.0.0.2"), device_on: true },
        DeviceCallOutcome::ConnectFailed,
    )
    .unwrap_err();
    assert_eq!(connect.status_code(), 400);
    let operation = set_device(
        SetDevicePayload { ip_address: String::from("10.0.0.2"), device_on: true },
        DeviceCallOutcome::OperationFailed,
    )
    .unwrap_err();
    assert_eq!(operation.status_code(), 500);
}

#[test]
fn api_actor_keeps_its_configuration() {
    let actor = ApiActor::new(
        Api { host: String::from("127.0.0.1"), port: 8080 },
        Tapo {
            username: String::from("user"),
            password: String::from("SECRET-REDACTED"),
            refresh_rate_s: 30,
        },
    );
    assert_eq!(actor.config_api.port, 8080);
    assert_eq!(actor.config_api.host, "127.0.0.1");
    assert_eq!(actor.config_tapo.username, "user");
}
