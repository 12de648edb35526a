[package]
name = "forged_flash"
version = "0.1.0"
edition = "2021"
publish = false

[dependencies]
semver = "=1.0.28"
anyhow = "=1.0.104"
log = "=0.4.34"
tokio = { version = "1", features = ["rt-multi-thread"] }
indicatif = "0.17"
cynic = "2"
forged = "=0.4.0"
probe-rs = "=0.23.0"
uuid = "1"
