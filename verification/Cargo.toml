[package]
name = "attestation_mobile"
version = "0.1.0"
edition = "2021"
publish = false

[dependencies]
c2pa = "=0.90.22"
hex = "=0.4.3"
pem = "=3.0.6"
serde = { version = "=1.0.229", features = ["derive"] }
serde_json = "=1.0.151"
sha2 = "=0.10.9"

[dev-dependencies]
openssl = "=0.10.81"
