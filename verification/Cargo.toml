[package]
name = "consensus"
version = "0.1.0"
edition = "2021"
publish = false

[dependencies]
async-trait = "=0.1.92"
cita_trie = "=2.0.0"
derive_more = "=0.99.20"
futures = "=0.3.34"
overlord = "=0.3.2"
parking_lot = "=0.10.2"
serde = { version = "1.0", features = ["derive"] }
serde_json = "=1.0.154"
