[package]
name = "eqwalizer"
version = "0.1.0"
edition = "2021"
publish = false

[dependencies]
anyhow = "1"
fxhash = "0.2"
log = "0.4"
parking_lot = "0.12"
salsa = "0.17.0-pre.2"
serde = { version = "1", features = ["derive"] }
serde_json = "1"
tempfile = "3"
