[package]
name = "pod_gateway"
version = "0.1.0"
edition = "2021"
publish = false

[dependencies]
iron = "0.6"
bodyparser = "0.8"
persistent = "0.4"
router = "0.6"
url = "1"
serde = { version = "1", features = ["derive"] }
serde_json = "1"
