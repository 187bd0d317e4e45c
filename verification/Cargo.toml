[package]
name = "enclave_envelope"
version = "0.1.0"
edition = "2021"
publish = false

[dependencies]
axum = "0.7"
fastcrypto = "*"
rand = "0.8"
serde = { version = "1", features = ["derive"] }

[dev-dependencies]
bcs = "0.1"
