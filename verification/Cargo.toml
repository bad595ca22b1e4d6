[package]
name = "sdk_event_metrics"
version = "0.1.0"
edition = "2021"
publish = false

[dependencies]
async-trait = "0.1"
bigdecimal = { version = "0.4", features = ["serde"] }
serde = { version = "1", features = ["derive"] }
time = "0.3"
