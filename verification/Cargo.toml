[package]
name = "stacks_signer"
version = "0.1.0"
edition = "2021"
publish = false

[dependencies]
backoff = "=0.4.0"
clap = { version = "=4.6.7", features = ["derive"] }
p256k1 = { version = "=7.1.0", default-features = false }
sha2 = "0.10"
thiserror = "=2.0.21"
