//! The Poller for one device: a fixed-interval timer that fetches the
//! device's usage and forwards it toward the Coordinator.
//!
//! The fetch itself is network work the host performs; what stands here is
//! every decision the Poller takes: what to do when its client cannot be
//! built, what to emit for each fetch outcome, and how often it fetches.
use vstd::prelude::*;

use crate::settings::{Device, Tapo};
use crate::system::messages::DeviceUsageMessage;
use crate::usage::DeviceUsage;

verus! {

/// The Poller's state: the device it watches and the credentials its
/// DeviceClient is built from.
#[derive(Debug)]
pub struct DeviceActor {
    pub config: Tapo,
    pub device: Device,
}

impl DeviceActor {
    pub fn new(config: Tapo, device: Device) -> (a: Self)
        ensures
            a.config == config,
            a.device == device,
    {
        DeviceActor { config, device }
    }

    /// Whether the Poller stops itself at startup: it does exactly when its
    /// DeviceClient could not be constructed. It never retries internally;
    /// recovery is left to the Coordinator's next health-check tick, which
    /// sees the dead handle and spawns a replacement.
    pub fn on_startup(&self, client_ok: bool) -> (stop: bool)
        ensures
            stop == !client_ok,
    {
        !client_ok
    }

    /// What one fetch tick emits: on success, a usage message for the
    /// Coordinator carrying this device's identity and the snapshot as
    /// fetched; on failure, nothing — the host logs the error and the next
    /// tick retries independently.
    pub fn on_query_result(&self, result: Option<DeviceUsage>) -> (msg: Option<DeviceUsageMessage>)
        ensures
            msg is Some <==> result is Some,
            result matches Some(usage) ==> (msg == Some(
                DeviceUsageMessage { device: self.device, device_usage: usage },
            )),
    {
        match result {
            Some(usage) => Some(
                DeviceUsageMessage { device: self.device.duplicate(), device_usage: usage },
            ),
            None => None,
        }
    }

    /// How many fetches this Poller has attempted once `elapsed_s` seconds
    /// have passed: one per full poll interval elapsed.
    pub fn fetch_attempts(&self, elapsed_s: u64) -> (n: u64)
        requires
            self.device.poll_interval_s > 0,
        ensures
            n == elapsed_s as int / self.device.poll_interval_s as int,
    {
        elapsed_s / self.device.poll_interval_s
    }
}

} // verus!
