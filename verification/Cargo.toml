[package]
name = "holochain_conductor_runtime"
version = "0.1.0"
edition = "2021"
publish = false

[dependencies]
base64 = "0.22"
serde = { version = "1", features = ["derive"] }
serde_json = "1"
url2 = "0.0.6"
rmp-serde = "1"
thiserror = "2"
log = "0.4"
uuid = { version = "1", features = ["v4"] }
zeroize = "1"
bytes = "1"
