//! Configuration of the system: the monitored devices, the MQTT broker, the
//! HTTP control surface, and the telemetry export target.
//!
//! The values are immutable after load. Loading them from a file is the host
//! process's business; this module states what a well-formed configuration is
//! and checks it.
use vstd::prelude::*;

verus! {

/// Where telemetry is exported and under what service identity.
#[derive(Debug)]
pub struct Telemetry {
    pub service_name: String,
    pub service_namespace: String,
    pub deployment_environment: String,
    pub otlp_endpoint: String,
}

/// Bind address of the HTTP control surface.
#[derive(Debug)]
pub struct Api {
    pub host: String,
    pub port: u16,
}

/// Credentials for the smart-plug devices, and the default refresh cadence.
#[derive(Debug)]
pub struct Tapo {
    pub username: String,
    pub password: String,
    pub refresh_rate_s: u64,
}

/// The MQTT broker address and the topic telemetry is published under.
#[derive(Debug)]
pub struct Mqtt {
    pub address: String,
    pub topic_name: String,
}

/// One monitored device. The network address is the unique key; the privacy
/// flag says whether time-usage figures may be reported; the poll interval
/// drives that device's fetch timer.
#[derive(Debug)]
pub struct Device {
    pub ip_address: String,
    pub name: String,
    pub record_time_usage: bool,
    pub poll_interval_s: u64,
}

impl Device {
    /// An equal copy of this device entry.
    pub fn duplicate(&self) -> (d: Device)
        ensures
            d == *self,
    {
        Device {
            ip_address: self.ip_address.clone(),
            name: self.name.clone(),
            record_time_usage: self.record_time_usage,
            poll_interval_s: self.poll_interval_s,
        }
    }
}

/// The whole configuration, one immutable value.
#[derive(Debug)]
pub struct Settings {
    pub telemetry: Telemetry,
    pub api: Api,
    pub tapo: Tapo,
    pub mqtt: Mqtt,
    pub devices: Vec<Device>,
}

impl Settings {
    /// No two configured devices share a network address.
    pub open spec fn addresses_unique(&self) -> bool {
        forall|i: int, j: int|
            0 <= i < j < self.devices@.len() ==> self.devices@[i].ip_address@
                != self.devices@[j].ip_address@
    }

    /// Every poll interval is positive, so a device's fetch timer is well defined.
    pub open spec fn poll_intervals_positive(&self) -> bool {
        forall|i: int| 0 <= i < self.devices@.len() ==> self.devices@[i].poll_interval_s > 0
    }

    /// A configuration the system can be started on.
    pub open spec fn wf(&self) -> bool {
        self.addresses_unique() && self.poll_intervals_positive()
    }

    /// Checks well-formedness. A configuration that fails this check is a
    /// fatal startup error for the host process.
    pub fn validate(&self) -> (ok: bool)
        ensures
            ok == self.wf(),
    {
        let n = self.devices.len();
        let mut i: usize = 0;
        while i < n
            invariant
                i <= n,
                n == self.devices@.len(),
                forall|p: int, q: int|
                    0 <= p < q < self.devices@.len() && p < i ==> self.devices@[p].ip_address@
                        != self.devices@[q].ip_address@,
                forall|p: int| 0 <= p < i ==> self.devices@[p].poll_interval_s > 0,
            decreases n - i,
        {
            if self.devices[i].poll_interval_s == 0 {
                return false;
            }
            let mut j: usize = i + 1;
            while j < n
                invariant
                    i < j <= n,
                    n == self.devices@.len(),
                    forall|q: int|
                        i < q < j ==> self.devices@[i as int].ip_address@
                            != self.devices@[q].ip_address@,
                decreases n - j,
            {
                if self.devices[i].ip_address == self.devices[j].ip_address {
                    return false;
                }
                j = j + 1;
            }
            i = i + 1;
        }
        true
    }
}

} // verus!
