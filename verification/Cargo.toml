[package]
name = "hybrid-asr"
version = "0.1.0"
edition = "2021"
publish = false

[dependencies]
base64 = "0.22"
serde = { version = "1", features = ["derive"] }
serde_json = "1"
sherpa-onnx = "*"
tungstenite = { version = "0.26", features = ["native-tls"] }
ureq = { version = "2", features = ["json"] }
