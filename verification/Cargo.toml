[package]
name = "vgm_parser"
version = "0.1.0"
edition = "2021"
publish = false

[dependencies]
bytes = "1"
flate2 = "1"
serde = { version = "1", features = ["derive"] }
serde_json = "1"
thiserror = "2"
