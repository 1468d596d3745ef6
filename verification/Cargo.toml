[package]
name = "telemetry_layer"
version = "0.1.0"
edition = "2021"
publish = false

[dependencies]
futures = "=0.3.34"
log = "=0.4.34"
parking_lot = "=0.11.2"
tracing = "=0.1.44"
tracing-subscriber = { version = "=0.2.25", default-features = false, features = ["registry"] }

[dev-dependencies]
futures = { version = "=0.3.34", features = ["thread-pool"] }
