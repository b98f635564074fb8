[package]
name = "tatara-process"
version = "0.1.0"
edition = "2021"
publish = false

[dependencies]
anyhow = "=1.0.104"
blake3 = { version = "=1.8.7", features = ["pure"] }
chrono = { version = "=0.4.45", features = ["serde"] }
hex = "=0.4.3"
humantime = "=2.4.0"
kube = { version = "=1.1.0", default-features = false, features = ["client", "runtime", "derive"] }
k8s-openapi = { version = "=0.25.0", features = ["latest"] }
schemars = { version = "=0.8.22", features = ["chrono"] }
serde = { version = "=1.0.229", features = ["derive"] }
serde_json = "=1.0.154"
serde_yaml = "=0.9.34"
thiserror = "=2.0.21"
