[package]
name = "exc"
version = "0.1.0"
edition = "2021"
publish = false

[dependencies]
anyhow = "1"
base64 = "0.22"
bs58 = "0.5"
ed25519-consensus = "2"
http = "1"
reqwest = { version = "0.12", default-features = false }
rust_decimal = { version = "1", features = ["serde"] }
serde = { version = "1", features = ["derive"] }
serde_json = "1"
serde_urlencoded = "0.7"
serde_with = { version = "3", features = ["time_0_3"] }
smol_str = { version = "0.2", features = ["serde"] }
thiserror = "1"
time = { version = "0.3", features = ["serde", "serde-well-known", "formatting", "parsing"] }
