[package]
name = "fixture_gen"
version = "0.1.0"
edition = "2021"
publish = false

[dependencies]
base64 = "=0.13.1"
num-traits = "0.2"
parsec-interface = "=0.24.0"
psa-crypto = { version = "=0.8.0", default-features = false }
serde = { version = "=1.0.229", features = ["derive"] }
serde_json = "=1.0.151"
uuid = "=0.8.2"
zeroize = "=1.9.1"
