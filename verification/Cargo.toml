[package]
name = "mining_core"
version = "0.1.0"
edition = "2021"
publish = false

[dependencies]
rand = "0.8"
tiny-keccak = { version = "2.0", features = ["keccak"] }
clap = { version = "4", features = ["derive"] }
