[package]
name = "krustlet_cri"
version = "0.1.0"
edition = "2021"
publish = false

[dependencies]
anyhow = "=1.0.104"
async-trait = "=0.1.92"
env_logger = "=0.7.1"
k8s-cri = "=0.1.2"
k8s-openapi = { version = "=0.9.0", default-features = false, features = ["v1_17"] }
kube = { version = "=0.40.0", default-features = false }
kubelet = { version = "=0.5.0", features = ["cli"] }
log = "=0.4.34"
serde_json = "=1.0.154"
tokio = { version = "=0.2.25", features = ["full"] }
tonic = "=0.2.1"
tower = "=0.3.1"
