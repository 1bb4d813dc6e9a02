[package]
name = "folio_bank"
version = "0.1.0"
edition = "2021"
publish = false

[dependencies]
csv = "1"
regex = "1"
sha2 = "0.10"
serde = { version = "1", features = ["derive"] }
serde_json = "1"
rust_decimal = "1"
uuid = { version = "1", features = ["v4"] }
chrono = "0.4"
log = "0.4"
