[package]
name = "jsontests"
version = "0.1.0"
edition = "2021"
publish = false

[dependencies]
evm = "=1.1.1"
hex = "=0.4.3"
primitive-types = "=0.12.2"
sha3 = "=0.10.9"
rlp = "=0.5.2"
ethereum = "=0.18.2"
serde = { version = "=1.0.229", features = ["derive"] }
serde_json = "=1.0.154"
