[package]
name = "xid"
version = "0.1.0"
edition = "2021"
publish = false

[dependencies]
base64 = "0.13"
candid = "0.7"
ic-cdk = "0.5"
ic-cdk-macros = "0.5"
ic-kit = "0.4"
libsecp256k1 = "0.7"
serde = { version = "1", features = ["derive"] }
serde_bytes = "0.11"
serde_json = "1"
sha3 = "0.10"
