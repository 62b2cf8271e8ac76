//! The message contracts between the units, and the MQTT payload built from
//! a usage message.
use vstd::prelude::*;

use crate::json::{json_opt_u64, json_string, push_json_opt_u64, push_json_string};
use crate::settings::Device;
use crate::usage::DeviceUsage;

verus! {

/// Tick of the Coordinator's health-check timer.
#[derive(Debug)]
pub struct HealthCheckMessage {}

/// Tick of a Poller's fetch timer.
#[derive(Debug)]
pub struct GetDeviceDataMessage {}

/// Telemetry produced by a Poller: the device's identity together with the
/// usage snapshot it reported.
#[derive(Debug)]
pub struct DeviceUsageMessage {
    pub device: Device,
    pub device_usage: DeviceUsage,
}

/// The payload published to the broker for one usage message. Time-usage
/// figures are in minutes and appear only for a device whose privacy flag
/// allows them; power-usage figures are in watt-hours and appear whenever the
/// device reported them.
#[derive(Debug)]
pub struct MqttMessagePayload {
    pub device_name: String,
    pub time_usage_today: Option<u64>,
    pub time_usage_past7: Option<u64>,
    pub time_usage_past30: Option<u64>,
    pub power_usage_today: Option<u64>,
    pub power_usage_past7: Option<u64>,
    pub power_usage_past30: Option<u64>,
}

/// The payload that a device and its usage snapshot give rise to: the
/// device's display name, the time-usage counters gated by the privacy flag,
/// and the power-usage counters as reported.
pub open spec fn payload_of(device: Device, usage: DeviceUsage) -> MqttMessagePayload {
    MqttMessagePayload {
        device_name: device.name,
        time_usage_today: if device.record_time_usage {
            usage.time_usage.today
        } else {
            None
        },
        time_usage_past7: if device.record_time_usage {
            usage.time_usage.past7
        } else {
            None
        },
        time_usage_past30: if device.record_time_usage {
            usage.time_usage.past30
        } else {
            None
        },
        power_usage_today: usage.power_usage.today,
        power_usage_past7: usage.power_usage.past7,
        power_usage_past30: usage.power_usage.past30,
    }
}

impl From<(Device, DeviceUsage)> for MqttMessagePayload {
    fn from(data: (Device, DeviceUsage)) -> (r: Self) {
        let (device, usage) = data;
        MqttMessagePayload {
            device_name: device.name,
            time_usage_today: if device.record_time_usage {
                usage.time_usage.today
            } else {
                None
            },
            time_usage_past7: if device.record_time_usage {
                usage.time_usage.past7
            } else {
                None
            },
            time_usage_past30: if device.record_time_usage {
                usage.time_usage.past30
            } else {
                None
            },
            power_usage_today: usage.power_usage.today,
            power_usage_past7: usage.power_usage.past7,
            power_usage_past30: usage.power_usage.past30,
        }
    }
}

impl vstd::std_specs::convert::FromSpecImpl<(Device, DeviceUsage)> for MqttMessagePayload {
    open spec fn obeys_from_spec() -> bool {
        true
    }

    open spec fn from_spec(data: (Device, DeviceUsage)) -> Self {
        payload_of(data.0, data.1)
    }
}

impl MqttMessagePayload {
    /// The JSON text of this payload, field by field in schema order.
    pub open spec fn json(&self) -> Seq<char> {
        "{\"device_name\":"@ + json_string(self.device_name@) + ",\"time_usage_today\":"@
            + json_opt_u64(self.time_usage_today) + ",\"time_usage_past7\":"@ + json_opt_u64(
            self.time_usage_past7,
        ) + ",\"time_usage_past30\":"@ + json_opt_u64(self.time_usage_past30)
            + ",\"power_usage_today\":"@ + json_opt_u64(self.power_usage_today)
            + ",\"power_usage_past7\":"@ + json_opt_u64(self.power_usage_past7)
            + ",\"power_usage_past30\":"@ + json_opt_u64(self.power_usage_past30) + "}"@
    }

    /// Serializes the payload to its JSON text.
    pub fn to_json(&self) -> (s: String)
        ensures
            s@ == self.json(),
    {
        let mut s = String::new();
        s.append("{\"device_name\":");
        push_json_string(&mut s, self.device_name.as_str());
        s.append(",\"time_usage_today\":");
        push_json_opt_u64(&mut s, self.time_usage_today);
        s.append(",\"time_usage_past7\":");
        push_json_opt_u64(&mut s, self.time_usage_past7);
        s.append(",\"time_usage_past30\":");
        push_json_opt_u64(&mut s, self.time_usage_past30);
        s.append(",\"power_usage_today\":");
        push_json_opt_u64(&mut s, self.power_usage_today);
        s.append(",\"power_usage_past7\":");
        push_json_opt_u64(&mut s, self.power_usage_past7);
        s.append(",\"power_usage_past30\":");
        push_json_opt_u64(&mut s, self.power_usage_past30);
        s.append("}");
        proof {
            assert(s@ =~= self.json());
        }
        s
    }
}

} // verus!
