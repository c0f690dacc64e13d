[package]
name = "deepflow_agent"
version = "0.1.0"
edition = "2021"
publish = false

[dependencies]
anyhow = "1"
arc-swap = "1"
clap = { version = "4", features = ["derive"] }
flexi_logger = "*"
hostname = "*"
k8s-openapi = { version = "*", features = ["latest"] }
kube = { version = "*", default-features = false, features = ["runtime"] }
log = "0.4"
nix = { version = "*", default-features = false }
regex = "1"
serde = { version = "1", features = ["derive"] }
serde_yaml = "0.9"
signal-hook = "0.3"
thiserror = "*"
