[package]
name = "colibri_proxy"
version = "0.1.0"
edition = "2021"
publish = false

[dependencies]
futures = "*"
http = "*"
k8s-openapi = { version = "*", features = ["latest"] }
kube = "*"
tokio = { version = "*", features = ["macros", "rt-multi-thread", "net", "io-util"] }
tokio-tungstenite = "*"
