[package]
name = "payment_engine"
version = "0.1.0"
edition = "2021"
publish = false

[dependencies]
anyhow = "1"
crossbeam = "0.8"
csv = "1"
dashmap = "*"
rust_decimal = "1"
serde = { version = "1", features = ["derive"] }
