//! The decisions of the HTTP handlers. The host performs the device calls
//! and hands each outcome in; every response is computed and pinned here.
use vstd::prelude::*;

use crate::system::api::errors::ApiError;

verus! {

/// The body of a plain status answer.
#[derive(Debug)]
pub struct ApiStatusResponse {
    pub code: u16,
    pub message: String,
}

impl ApiStatusResponse {
    pub fn new(code: u16, message: &str) -> (r: Self)
        ensures
            r.code == code,
            r.message@ == message@,
    {
        ApiStatusResponse { code, message: message.to_owned() }
    }
}

/// The body of `POST /device`: which device, and the power state to set.
#[derive(Debug)]
pub struct SetDevicePayload {
    pub ip_address: String,
    pub device_on: bool,
}

/// The body of `GET /device`: which device to query.
#[derive(Debug)]
pub struct GetDevicePayload {
    pub ip_address: String,
}

/// The body answering either device endpoint.
#[derive(Debug)]
pub struct DeviceResponse {
    pub ip_address: String,
    pub device_on: Option<bool>,
}

/// `GET /health-check` always answers 200 with message "OK", whatever the
/// devices or the broker are doing.
pub fn health_check() -> (r: ApiStatusResponse)
    ensures
        r.code == 200,
        r.message@ == "OK"@,
{
    ApiStatusResponse::new(200, "OK")
}

/// How far one on-demand device call got: no connection, connected but the
/// operation failed, or done.
pub enum DeviceCallOutcome {
    ConnectFailed,
    OperationFailed,
    Done(Option<bool>),
}

/// The response of `GET /device` for each outcome of the host's query: a
/// connect failure is the caller's 4xx BadRequest, a failed query after
/// connecting is a 5xx, and a successful one answers with the device's
/// reported power state.
pub fn get_device(payload: GetDevicePayload, outcome: DeviceCallOutcome) -> (r: Result<
    DeviceResponse,
    ApiError,
>)
    ensures
        r is Ok <==> outcome is Done,
        outcome matches DeviceCallOutcome::Done(device_on) ==> (r == Ok::<DeviceResponse, ApiError>(
            DeviceResponse { ip_address: payload.ip_address, device_on },
        )),
        outcome is ConnectFailed ==> (r matches Err(e) && e matches ApiError::BadRequest(m) && m@
            == "failed to connect to the device"@),
        outcome is OperationFailed ==> r == Err::<DeviceResponse, ApiError>(
            ApiError::InternalServerError,
        ),
{
    match outcome {
        DeviceCallOutcome::ConnectFailed => Err(
            ApiError::BadRequest(String::from_str("failed to connect to the device")),
        ),
        DeviceCallOutcome::OperationFailed => Err(ApiError::InternalServerError),
        DeviceCallOutcome::Done(device_on) => Ok(
            DeviceResponse { ip_address: payload.ip_address, device_on },
        ),
    }
}

/// The response of `POST /device` for each outcome of the host's set-power
/// call: the same error mapping as `get_device`, and on success the response
/// echoes the state that was set.
pub fn set_device(payload: SetDevicePayload, outcome: DeviceCallOutcome) -> (r: Result<
    DeviceResponse,
    ApiError,
>)
    ensures
        r is Ok <==> outcome is Done,
        outcome is Done ==> (r == Ok::<DeviceResponse, ApiError>(
            DeviceResponse {
                ip_address: payload.ip_address,
                device_on: Some(payload.device_on),
            },
        )),
        outcome is ConnectFailed ==> (r matches Err(e) && e matches ApiError::BadRequest(m) && m@
            == "failed to connect to the device"@),
        outcome is OperationFailed ==> r == Err::<DeviceResponse, ApiError>(
            ApiError::InternalServerError,
        ),
{
    match outcome {
        DeviceCallOutcome::ConnectFailed => Err(
            ApiError::BadRequest(String::from_str("failed to connect to the device")),
        ),
        DeviceCallOutcome::OperationFailed => Err(ApiError::InternalServerError),
        DeviceCallOutcome::Done(_) => Ok(
            DeviceResponse { ip_address: payload.ip_address, device_on: Some(payload.device_on) },
        ),
    }
}

} // verus!
