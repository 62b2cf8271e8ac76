//! The units of the system and the messages that pass between them.
pub mod api;
pub mod coordinator_actor;
pub mod device_actor;
pub mod messages;
pub mod mqtt_actor;
