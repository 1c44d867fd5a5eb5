[package]
name = "restcommander"
version = "0.1.0"
edition = "2021"
publish = false

[dependencies]
base64 = "0.13"
log = "0.4"
serde = { version = "1", features = ["derive"] }
serde_derive = "1"
serde_json = "1"
sha2 = "0.10"
thiserror = "1"
tokio = { version = "1", features = ["full"] }
warp = { version = "0.3", features = ["tls"] }
