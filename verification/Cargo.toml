[package]
name = "sdb_controller"
version = "0.1.0"
edition = "2021"
publish = false

[dependencies]
anyhow = "1"
base64 = "0.22"
chrono = { version = "0.4", features = ["serde"] }
futures = "0.3"
http = "1"
json-patch = "4"
k8s-openapi = { version = "0.25", features = ["latest", "schemars"] }
kube = { version = "1.1", features = ["runtime", "client", "derive"] }
prometheus-client = "0.23"
rand = "0.9"
reqwest = { version = "0.12", default-features = false }
schemars = "0.8"
serde = { version = "1", features = ["derive"] }
serde_json = "1"
serde_yaml = "0.9"
thiserror = "2"
tokio = { version = "1", features = ["macros", "rt-multi-thread", "sync", "time"] }
tracing = "0.1"
url = "2"
