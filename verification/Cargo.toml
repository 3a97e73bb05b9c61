[package]
name = "hk8s"
version = "0.1.0"
edition = "2021"
publish = false

[dependencies]
anyhow = "1"
k8s-openapi = { version = "0.24", features = ["latest"] }
kube = { version = "0.98" }
tokio = { version = "1", features = ["macros", "rt-multi-thread", "time"] }
