[package]
name = "papi"
version = "0.1.0"
edition = "2021"
publish = false

[dependencies]
actix-web = "*"
listenfd = "*"
num_cpus = "*"
serde = { version = "*", features = ["derive"] }
serde_json = "*"
tokio = { version = "*", features = ["time"] }
