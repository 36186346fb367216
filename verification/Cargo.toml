[package]
name = "greentic-control-chain"
version = "0.1.0"
edition = "2021"
publish = false

[dependencies]
regex = "1"
serde = { version = "1", features = ["derive"] }
serde_cbor = "0.11"
serde_json = "1"
zip = { version = "2", default-features = false, features = ["deflate"] }
greentic-types = "*"
greentic-interfaces-guest = "*"
