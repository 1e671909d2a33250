[package]
name = "kufefe"
version = "0.1.0"
edition = "2021"
publish = false

[dependencies]
anyhow = "*"
async-trait = "=0.1.92"
base64 = "=0.23.1"
chrono = "=0.4.45"
either = "=1.19.0"
futures = "*"
k8s-openapi = { version = "=0.27.1", features = ["latest"] }
kube = { version = "=3.1.0", features = ["runtime", "derive", "client"] }
kube-derive = "=3.1.0"
rand = "=0.10.3"
schemars = "*"
serde = { version = "*", features = ["derive"] }
serde_json = "*"
serde_yaml = "*"
tokio = { version = "*", features = ["macros", "rt-multi-thread", "signal", "time"] }
tokio-retry = "=0.3.2"
tracing = "*"
tracing-subscriber = { version = "*", features = ["env-filter", "json"] }
