[package]
name = "ledger_engine"
version = "0.1.0"
edition = "2021"
publish = false

[dependencies]
rust_decimal = "1"
serde = { version = "1", features = ["derive"] }
csv-async = "1"
csv = "1"
smol = "*"
async-fs = "*"
smol-potat = "1"
log = "0.4"
thiserror = "1"
itertools = "*"
