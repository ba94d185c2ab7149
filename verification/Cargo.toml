[package]
name = "polyumi_auth"
version = "0.1.0"
edition = "2021"
publish = false

[dependencies]
base64 = "=0.22.1"
hmac = "=0.12.1"
p384 = { version = "=0.13.1", features = ["ecdsa"] }
rand = "=0.8.8"
serde_cbor_2 = "=0.13.0"
serde_json = "=1.0.151"
sha2 = "=0.10.9"
uuid = { version = "=1.27.0", features = ["v4"] }
webauthn-rs-core = "=0.5.5"

[dev-dependencies]
jsonwebtoken = "=9.3.1"
p256 = { version = "0.13", features = ["ecdsa"] }
