[package]
name = "podo_std_eye"
version = "0.1.0"
edition = "2021"
publish = false

[dependencies]
chrono = "=0.4.45"
opencv = "=0.101.0"
podo-core-driver = { version = "=0.4.4", features = ["driver", "util"] }
serde = { version = "=1.0.229", features = ["derive"] }
serde_yaml = "=0.8.26"
simple-socket = "=0.1.7"
