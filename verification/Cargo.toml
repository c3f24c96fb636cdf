[package]
name = "cellscript"
version = "0.1.0"
edition = "2021"
publish = false

[dependencies]
hex = "0.4"
blake2b-ref = "0.3"
serde = { version = "1", features = ["derive"] }
serde_json = "1"
colored = "2"
