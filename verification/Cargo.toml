[package]
name = "cosmos_client"
version = "0.1.0"
edition = "2021"
publish = false

[dependencies]
cosmrs = "=0.22.0"
osmosis-std = "=0.27.0"
bip32 = "=0.5.3"
thiserror = "=1.0.69"

[dev-dependencies]
hex = "=0.4.3"
k256 = { version = "=0.13.4", features = ["ecdsa", "sha256"] }
