[package]
name = "rainboltd"
version = "0.1.0"
edition = "2021"
publish = false

[dependencies]
async-trait = "=0.1.92"
base64 = "=0.13.1"
borsh = "=1.8.1"
clap = "=2.34.0"
ff = "=0.5.2"
futures = "=0.3.34"
http = "=0.2.12"
lazy_static = "=1.5.1"
near-crypto = "=0.37.4"
near-jsonrpc-client = "=0.22.0"
near-jsonrpc-primitives = "=0.37.4"
near-primitives = "=0.37.4"
pairing = "=0.15.1"
rand = "=0.8.8"
reqwest = { version = "=0.11.27", default-features = false, features = ["json"] }
secp256k1 = { version = "=0.33.1", features = ["serde"] }
serde = { version = "=1.0.229", features = ["derive"] }
serde_json = "=1.0.154"
tokio = { version = "=1.54.1", features = ["macros", "rt-multi-thread", "time"] }
warp = { version = "=0.3.7", default-features = false }
