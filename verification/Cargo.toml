[package]
name = "tx_engine"
version = "0.1.0"
edition = "2021"
publish = false

[dependencies]
rust_decimal = "*"
csv = "*"
csv-async = { version = "*", features = ["tokio"] }
tokio = { version = "*", features = ["rt", "macros", "fs", "io-util"] }
async-trait = "*"
