[package]
name = "factoryplus"
version = "0.1.0"
edition = "2021"
publish = false

[dependencies]
http = "=1.5.0"
uuid = { version = "=1.29.0", features = ["serde"] }
serde = { version = "=1.0.229", features = ["derive"] }
serde_json = "=1.0.154"
reqwest = { version = "=0.13.5", default-features = false, features = ["query"] }
tokio = { version = "=1.54.1", features = ["sync"] }
paho-mqtt = "=0.14.0"
sparkplug-rs = "=0.5.1"
