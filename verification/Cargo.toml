[package]
name = "tezos_codec"
version = "0.1.0"
edition = "2021"
publish = false

[dependencies]
num-bigint = "0.4"
num-traits = "0.2"
serde = { version = "1", features = ["derive"] }
async-trait = "0.1"
chrono = { version = "0.4", default-features = false }
reqwest = { version = "0.11", default-features = false, features = ["json"] }
