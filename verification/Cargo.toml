[package]
name = "zk_ct_sdk"
version = "1.0.0"
edition = "2021"
publish = false

[dependencies]
sha2 = "0.10"
rand = "0.8"
hex = "0.4"
base64 = "0.22"
serde = { version = "1", features = ["derive"] }
serde_json = "1"
thiserror = "1"
solana-program = "*"
