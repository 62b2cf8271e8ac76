[package]
name = "home_automation_tapo"
version = "0.1.0"
edition = "2021"
publish = false

[dependencies]
actix = "*"
actix-rt = "*"
actix-web = "*"
anyhow = "*"
config = { version = "*", default-features = false, features = ["yaml"] }
paho-mqtt = "*"
serde = { version = "*", features = ["derive"] }
serde_json = "*"
tapo = "*"
tokio = { version = "*", features = ["signal"] }
tracing = "*"
tracing-subscriber = { version = "*", default-features = false, features = ["fmt", "ansi"] }
