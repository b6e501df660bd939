[package]
name = "tx_assembly"
version = "0.1.0"
edition = "2021"
publish = false

[dependencies]
solana-program = "2"
sha2 = "0.10"
base64 = "0.22"
rand = "0.8"
reqwest = { version = "0.12", default-features = false, features = ["blocking", "json"] }
serde = { version = "1", features = ["derive"] }
serde_json = "1"

[dev-dependencies]
borsh = "1"
bincode = "1"
spl-associated-token-account = "6"
spl-token = "6"
