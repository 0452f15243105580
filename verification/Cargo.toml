[package]
name = "tari_dan"
version = "0.1.0"
edition = "2021"
publish = false

[dependencies]
serde = { version = "=1.0.229", features = ["derive"] }
serde-big-array = "=0.5.1"
tari_crypto = "=0.18.0"
tari_utilities = "=0.5.1"
blake2 = "=0.10.6"
critical-section = { version = "1", features = ["std"] }
chrono = "=0.4.45"
lazy_static = "=1.5.1"
anyhow = "=1.0.104"
thiserror = "=1.0.69"
async-trait = "=0.1.92"
tokio = { version = "=1.54.1", features = ["sync", "rt", "macros"] }
tokio-stream = "=0.1.19"
