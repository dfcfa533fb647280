[package]
name = "biometric"
version = "0.1.0"
edition = "2021"
publish = false

[dependencies]
anyhow = "1"
libc = "0.2"
rustix = { version = "1", features = ["event", "mm", "pipe", "std"] }
security-framework = "3"
sha2 = "0.10"
thiserror = "2"
zeroize = "1"
