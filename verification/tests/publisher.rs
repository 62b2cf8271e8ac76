use home_automation_tapo::settings::{Device, Mqtt};
use home_automation_tapo::system::mqtt_actor::{MqttActor, PublishOutcome};
use home_automation_tapo::usage::{DeviceUsage, UsageByPeriod};

fn broker() -> Mqtt {
    Mqtt {
        address: String::from("tcp://127.0.0.1:1883"),
        topic_name: String::from("home/usage"),
    }
}

fn device() -> Device {
    Device {
        ip_address: String::from("10.0.0.2"),
        name: String::from("Desk"),
        record_time_usage: true,
        poll_interval_s: 30,
    }
}

fn usage() -> DeviceUsage {
    DeviceUsage {
        time_usage: UsageByPeriod { today: Some(42), past7: None, past30: None },
        power_usage: UsageByPeriod { today: Some(5), past7: Some(35), past30: Some(150) },
    }
}

#[test]
fn publisher_starts_disconnected_and_connects_on_demand() {
    let publisher = MqttActor::new(broker());
    assert!(!publisher.connected);
    let plan = publisher.send_mqtt_message(device(), usage());
    assert!(plan.connect_first);
    assert_eq!(plan.topic_name, "home/usage");
    assert_eq!(
        plan.payload,
        "{\"device_name\":\"Desk\",\"time_usage_today\":42,\"time_usage_past7\":null,\
         \"time_usage_past30\":null,\"power_usage_today\":5,\"power_usage_past7\":35,\
         \"power_usage_past30\":150}"
    );
}

#[test]
fn failed_connect_drops_message_and_next_message_retries_fresh() {
    let mut publisher = MqttActor::new(broker());
    let first = publisher.send_mqtt_message(device(), usage());
    assert!(first.connect_first);
    // the broker refuses the first connection: the message is dropped
    publisher.on_publish_outcome(PublishOutcome::ConnectFailed);
    assert!(!publisher.connected);
    // a later message triggers a fresh connect attempt, not a cached failure
    let second = publisher.send_mqtt_message(device(), usage());
    assert!(second.connect_first);
    assert_eq!(second.payload, first.payload);
}

#[test]
fn successful_publish_keeps_connection_up() {
    let mut publisher = MqttActor::new(broker());
    publisher.on_publish_outcome(PublishOutcome::Published);
    assert!(publisher.connected);
    let plan = publisher.send_mqtt_message(device(), usage());
    assert!(!plan.connect_first);
}

#[test]
fn failed_publish_after_connect_leaves_connection_up() {
    let mut publisher = MqttActor::new(broker());
    publisher.on_publish_outcome(PublishOutcome::PublishFailed);
    assert!(publisher.connected);
}
