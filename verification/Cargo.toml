[package]
name = "labelzoom"
version = "1.0.0"
edition = "2021"
publish = false

[dependencies]
encoding_rs = "0.8"
serde = { version = "1", features = ["derive"] }
serde_json = "1"
ureq = "3"
