[package]
name = "rustup_tuf"
version = "0.1.0"
edition = "2021"
publish = false

[dependencies]
anyhow = "1"
chrono = { version = "0.4", default-features = false, features = ["alloc", "std"] }
faster-hex = "0.10"
futures-util = { version = "0.3", features = ["io"] }
sha2 = "0.10"
tuf = { version = "0.3.0-beta", default-features = false }
url = "2"
