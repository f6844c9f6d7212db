[package]
name = "radix_engine_toolkit"
version = "0.1.0"
edition = "2021"
publish = false

[dependencies]
radix-common = "1.2.0"
radix-engine = "1.2.0"
radix-transactions = "1.2.0"
scrypto = "1.2.0"
bech32 = "0.9"
hex = "0.4"
serde = { version = "1", features = ["derive"] }
serde_json = "1"
serde_with = { version = "3", features = ["hex"] }
