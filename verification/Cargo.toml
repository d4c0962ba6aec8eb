[package]
name = "we_toolkit"
version = "0.1.0"
edition = "2021"
publish = false

[dependencies]
anyhow = "*"
base64 = "=0.23.1"
sha256 = "=1.6.0"
wat = "=1.261.0"
wasmprinter = "=0.261.0"
syn = { version = "=3.0.6", features = ["full"] }
quote = "=1.0.47"
proc-macro2 = "=1.0.107"
clap = { version = "=4.6.7", features = ["derive"] }
serde = { version = "=1.0.229", features = ["derive"] }
serde_json = "=1.0.151"
cargo_metadata = "=0.23.1"
