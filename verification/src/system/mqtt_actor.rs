//! The Publisher: receives usage messages, builds the MQTT payload and hands
//! the host a publish plan; connection state is connect-on-demand.
//!
//! The broker I/O is the host's; what stands here is the payload built for
//! each message, the decision whether to connect first, and what each
//! outcome does to the connection state. A failed message is dropped — the
//! state holds no queue to keep it in — and a failed connect leaves no
//! cached failure behind: the next message triggers a fresh attempt.
use vstd::prelude::*;

use crate::settings::{Device, Mqtt};
use crate::system::messages::{payload_of, MqttMessagePayload};
use crate::usage::DeviceUsage;

verus! {

/// What the host must do for one usage message: connect first if asked, then
/// publish `payload` under `topic_name` at at-least-once quality of service.
#[derive(Debug)]
pub struct MqttPublishPlan {
    pub topic_name: String,
    pub payload: String,
    pub connect_first: bool,
}

/// How the host's connect-and-publish attempt ended.
#[derive(Debug)]
pub enum PublishOutcome {
    /// The publish went through; the connection is up.
    Published,
    /// The connect attempt failed; the message was dropped and logged.
    ConnectFailed,
    /// Connected, but the publish failed; the message was dropped and logged.
    PublishFailed,
}

/// The Publisher's state: the broker configuration and whether its client is
/// currently connected.
#[derive(Debug)]
pub struct MqttActor {
    pub config: Mqtt,
    pub connected: bool,
}

impl MqttActor {
    /// Stores the broker configuration. No connection is made here: the
    /// Publisher connects on demand, at the first message.
    pub fn new(config: Mqtt) -> (a: Self)
        ensures
            a.config == config,
            !a.connected,
    {
        MqttActor { config, connected: false }
    }

    /// The plan for one usage message: the payload is exactly the JSON of
    /// the payload the device and its snapshot give rise to (privacy flag
    /// honored), the topic is the configured one, and a connect comes first
    /// exactly when the client is not connected — a prior failure leaves no
    /// cached state, so a later message always gets a fresh attempt.
    pub fn send_mqtt_message(&self, device: Device, device_usage: DeviceUsage) -> (plan:
        MqttPublishPlan)
        ensures
            plan.topic_name == self.config.topic_name,
            plan.payload@ == payload_of(device, device_usage).json(),
            plan.connect_first == !self.connected,
    {
        let payload = MqttMessagePayload::from((device, device_usage));
        let text = payload.to_json();
        MqttPublishPlan {
            topic_name: self.config.topic_name.clone(),
            payload: text,
            connect_first: !self.connected,
        }
    }

    /// Records how the host's attempt ended. A failed connect leaves the
    /// state exactly as it was — not connected, nothing buffered — so the
    /// next message starts over; any outcome past the connect means the
    /// connection is up.
    pub fn on_publish_outcome(&mut self, outcome: PublishOutcome)
        ensures
            final(self).config == old(self).config,
            final(self).connected == !(outcome is ConnectFailed),
    {
        match outcome {
            PublishOutcome::ConnectFailed => {
                self.connected = false;
            },
            PublishOutcome::Published => {
                self.connected = true;
            },
            PublishOutcome::PublishFailed => {
                self.connected = true;
            },
        }
    }
}

} // verus!
