[package]
name = "nyanpasu_service"
version = "0.1.0"
edition = "2021"
publish = false

[dependencies]
axum = { version = "=0.8.9", features = ["ws"] }
camino = "=1.2.6"
dunce = "=1.0.5"
futures-util = "=0.3.34"
http-body-util = "=0.1.5"
hyper = { version = "=1.12.0", features = ["client", "http1"] }
hyper-util = { version = "=0.1.21", features = ["tokio"] }
interprocess = { version = "=2.4.7", features = ["tokio"] }
parking_lot = "=0.12.5"
reqwest = { version = "=0.13.5", default-features = false, features = ["json"] }
reqwest-websocket = { version = "=0.6.0", default-features = false }
semver = "=1.0.28"
serde = { version = "=1.0.229", features = ["derive"] }
serde_json = "=1.0.154"
serde_yaml_ng = "=0.10.0"
simd-json = "=0.19.0"
tokio = { version = "=1.54.1", features = ["full"] }
tokio-util = { version = "=0.7.20", features = ["io"] }
tracing = "=0.1.44"
url = "=2.5.8"
widestring = "=1.2.1"
