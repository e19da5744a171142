[package]
name = "kube_fqdn"
version = "0.1.0"
edition = "2021"
publish = false

[dependencies]
env_logger = "=0.11.11"
k8s-openapi = { version = "=0.28.0", features = ["latest"] }
kube = "=4.2.0"
log = "=0.4.34"
tokio = { version = "=1.54.1", features = ["macros", "rt-multi-thread", "signal", "time"] }
