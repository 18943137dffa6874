[package]
name = "authcore"
version = "0.1.0"
edition = "2021"
publish = false

[dependencies]
argon2 = "=0.5.3"
base32 = "=0.5.1"
rand = "=0.8.8"
totp-rs = "=5.7.2"
uuid = { version = "=1.27.0", features = ["v4"] }
tokio = { version = "=1.53.2", features = ["sync", "rt-multi-thread", "macros", "time"] }
webauthn-rs = { version = "=0.5.5", features = ["danger-allow-state-serialisation"] }
serde = { version = "=1.0.229", features = ["derive"] }
serde_json = "=1.0.151"
