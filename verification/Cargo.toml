[package]
name = "rosmqttbridge"
version = "0.1.0"
edition = "2021"
publish = false

[dependencies]
futures = "0.3"
paho-mqtt = { version = "*", default-features = false, features = ["bundled"] }
r2r = "*"
serde = { version = "1", features = ["derive"] }
serde_json = { version = "1", features = ["preserve_order"] }
tokio = { version = "1", features = ["macros", "rt-multi-thread", "sync", "time", "signal"] }
tracing = "0.1"
tracing-subscriber = { version = "0.3", features = ["env-filter"] }
uuid = { version = "1", features = ["v4"] }
