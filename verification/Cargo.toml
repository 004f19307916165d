[package]
name = "seamless"
version = "0.1.0"
edition = "2021"
publish = false

[dependencies]
anyhow = "1"
lazy_static = "1"
libc = "0.2"
libffi = "*"
serde = { version = "1", features = ["derive"] }
serde_cbor = "0.11"
serde_json = "1"
