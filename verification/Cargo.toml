[package]
name = "tunnel_engine"
version = "0.1.0"
edition = "2021"
publish = false

[dependencies]
base64 = "=0.22.1"
sha2 = "=0.10.9"
uuid = "=1.27.0"

[dev-dependencies]
serde_json = "=1.0.151"
