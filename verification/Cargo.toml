[package]
name = "k9rs"
version = "0.1.0"
edition = "2021"
publish = false

[dependencies]
anyhow = "1"
chrono = "0.4"
clap = { version = "4", features = ["derive"] }
k8s-openapi = { version = "*", features = ["latest"] }
kube = "*"
serde = { version = "1", features = ["derive"] }
serde_json = "1"
serde_yml = "*"
tokio = { version = "1", features = ["full"] }
tracing-subscriber = { version = "0.3", features = ["env-filter"] }
