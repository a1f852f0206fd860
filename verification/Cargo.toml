[package]
name = "ccache"
version = "0.1.0"
edition = "2021"
publish = false

[dependencies]
dirs = "*"
flate2 = "1"
serde = { version = "1", features = ["derive"] }
serde_json = "1"
sha3 = "0.10"
