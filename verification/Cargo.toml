[package]
name = "chain_currency"
version = "0.1.0"
edition = "2021"
publish = false

[dependencies]
anyhow = "1"
async-trait = "0.1"
clap = { version = "4", features = ["derive"] }
num = "0.4"
num-derive = "0.4"
num-traits = "0.2"
serde = { version = "1", features = ["derive"] }
