[package]
name = "elux"
version = "0.1.0"
edition = "2021"
publish = false

[dependencies]
url = "=2.5.8"
base64 = "=0.23.1"
percent-encoding = "=2.3.2"
serde_json = { version = "=1.0.151", features = ["float_roundtrip"] }
dirs = "=7.0.0"
