use home_automation_tapo::settings::{Api, Device, Mqtt, Settings, Tapo, Telemetry};
use home_automation_tapo::system::coordinator_actor::{CoordinatorActor, HEALTH_CHECK_INTERVAL_S};
use home_automation_tapo::system::messages::DeviceUsageMessage;
use home_automation_tapo::usage::{DeviceUsage, UsageByPeriod};

fn device(ip: &str, name: &str, interval: u64) -> Device {
    Device {
        ip_address: String::from(ip),
        name: String::from(name),
        record_time_usage: true,
        poll_interval_s: interval,
    }
}

fn settings(devices: Vec<Device>) -> Settings {
    Settings {
        telemetry: Telemetry {
            service_name: String::from("home-automation"),
            service_namespace: String::from("home"),
            deployment_environment: String::from("test"),
            otlp_endpoint: String::from("http://127.0.0.1:4317"),
        },
        api: Api { host: String::from("127.0.0.1"), port: 8080 },
        tapo: Tapo {
            username: String::from("user"),
            password: String::from("SECRET-REDACTED"),
            refresh_rate_s: 30,
        },
        mqtt: Mqtt {
            address: String::from("tcp://127.0.0.1:1883"),
            topic_name: String::from("home/usage"),
        },
        devices,
    }
}

#[test]
fn health_check_interval_is_fixed() {
    assert_eq!(HEALTH_CHECK_INTERVAL_S, 60);
}

#[test]
fn validate_accepts_unique_addresses() {
    let s = settings(vec![device("10.0.0.2", "a", 30), device("10.0.0.3", "b", 60)]);
    assert!(s.validate());
}

#[test]
fn validate_rejects_duplicate_addresses() {
    let s = settings(vec![device("10.0.0.2", "a", 30), device("10.0.0.2", "b", 60)]);
    assert!(!s.validate());
}

#[test]
fn validate_rejects_zero_poll_interval() {
    let s = settings(vec![device("10.0.0.2", "a", 0)]);
    assert!(!s.validate());
}

#[test]
fn start_leaves_registry_empty() {
    let c = CoordinatorActor::new(settings(vec![
        device("10.0.0.2", "a", 30),
        device("10.0.0.3", "b", 60),
    ]));
    assert_eq!(c.registry, vec![None, None]);
    assert_ne!(c.api_handle, c.mqtt_handle);
}

#[test]
fn first_tick_fills_registry_with_live_handles() {
    let mut c = CoordinatorActor::new(settings(vec![
        device("10.0.0.2", "a", 30),
        device("10.0.0.3", "b", 60),
    ]));
    let actions = c.on_health_check_tick(true, true, &vec![false, false]);
    // one handle per configured device, all freshly spawned
    assert_eq!(c.registry, vec![Some(2), Some(3)]);
    assert!(!actions.respawn_api);
    assert!(!actions.respawn_mqtt);
    assert_eq!(actions.spawn_pollers.len(), 2);
    assert_eq!(actions.spawn_pollers[0].device_index, 0);
    assert_eq!(actions.spawn_pollers[0].handle, 2);
    assert_eq!(actions.spawn_pollers[1].device_index, 1);
    assert_eq!(actions.spawn_pollers[1].handle, 3);
}

#[test]
fn dead_handle_is_replaced_by_distinct_handle() {
    let mut c = CoordinatorActor::new(settings(vec![
        device("10.0.0.2", "a", 30),
        device("10.0.0.3", "b", 60),
    ]));
    c.on_health_check_tick(true, true, &vec![true, true]);
    let before = c.registry.clone();
    // device a's poller dies before the next tick
    let actions = c.on_health_check_tick(true, true, &vec![false, true]);
    assert_eq!(actions.spawn_pollers.len(), 1);
    assert_eq!(actions.spawn_pollers[0].device_index, 0);
    // same slot, new distinct handle; the healthy poller is untouched
    assert_ne!(c.registry[0], before[0]);
    assert_eq!(c.registry[1], before[1]);
    assert!(c.registry[0].is_some());
    assert_ne!(c.registry[0], c.registry[1]);
}

#[test]
fn tick_without_failures_spawns_nothing() {
    let mut c = CoordinatorActor::new(settings(vec![
        device("10.0.0.2", "a", 30),
        device("10.0.0.3", "b", 60),
    ]));
    c.on_health_check_tick(true, true, &vec![true, true]);
    let before = c.registry.clone();
    let actions = c.on_health_check_tick(true, true, &vec![true, true]);
    assert!(actions.spawn_pollers.is_empty());
    assert!(!actions.respawn_api);
    assert!(!actions.respawn_mqtt);
    assert_eq!(c.registry, before);
}

#[test]
fn dead_publisher_and_api_are_respawned() {
    let mut c = CoordinatorActor::new(settings(vec![device("10.0.0.2", "a", 30)]));
    let api_before = c.api_handle;
    let mqtt_before = c.mqtt_handle;
    let actions = c.on_health_check_tick(false, false, &vec![false]);
    assert!(actions.respawn_api);
    assert!(actions.respawn_mqtt);
    assert_ne!(c.api_handle, api_before);
    assert_ne!(c.mqtt_handle, mqtt_before);
    assert_ne!(c.api_handle, c.mqtt_handle);
}

#[test]
fn usage_message_is_forwarded_unchanged() {
    let c = CoordinatorActor::new(settings(vec![device("10.0.0.2", "a", 30)]));
    let msg = DeviceUsageMessage {
        device: device("10.0.0.2", "a", 30),
        device_usage: DeviceUsage {
            time_usage: UsageByPeriod { today: Some(1), past7: Some(2), past30: Some(3) },
            power_usage: UsageByPeriod { today: Some(4), past7: None, past30: Some(6) },
        },
    };
    let fwd = c.on_usage_message(msg);
    assert_eq!(fwd.device.ip_address, "10.0.0.2");
    assert_eq!(fwd.device.name, "a");
    assert!(fwd.device.record_time_usage);
    assert_eq!(fwd.device.poll_interval_s, 30);
    assert_eq!(fwd.device_usage.time_usage.today, Some(1));
    assert_eq!(fwd.device_usage.time_usage.past7, Some(2));
    assert_eq!(fwd.device_usage.time_usage.past30, Some(3));
    assert_eq!(fwd.device_usage.power_usage.today, Some(4));
    assert_eq!(fwd.device_usage.power_usage.past7, None);
    assert_eq!(fwd.device_usage.power_usage.past30, Some(6));
}

#[test]
fn empty_device_list_is_valid_and_ticks_quietly() {
    let s = settings(vec![]);
    assert!(s.validate());
    let mut c = CoordinatorActor::new(s);
    let actions = c.on_health_check_tick(true, true, &vec![]);
    assert!(actions.spawn_pollers.is_empty());
    assert!(c.registry.is_empty());
}

#[test]
fn mixed_absent_and_dead_slots_are_spawned_in_order() {
    let mut c = CoordinatorActor::new(settings(vec![
        device("10.0.0.2", "a", 30),
        device("10.0.0.3", "b", 30),
        device("10.0.0.4", "c", 30),
    ]));
    c.on_health_check_tick(true, true, &vec![true, true, true]);
    assert_eq!(c.registry, vec![Some(2), Some(3), Some(4)]);
    // b's poller dies; c's poller also dies
    let actions = c.on_health_check_tick(true, true, &vec![true, false, false]);
    assert_eq!(actions.spawn_pollers.len(), 2);
    assert_eq!(actions.spawn_pollers[0].device_index, 1);
    assert_eq!(actions.spawn_pollers[1].device_index, 2);
    assert_eq!(c.registry, vec![Some(2), Some(5), Some(6)]);
}
