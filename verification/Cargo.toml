[package]
name = "modality_dlt"
version = "0.1.0"
edition = "2021"
publish = false

[dependencies]
dlt-core = "=0.15.0"
auxon-sdk = { version = "=2.3.0", features = ["modality", "modality_tracing"] }
tokio = { version = "=1.53.2", features = ["net", "io-util", "fs", "rt", "rt-multi-thread", "macros"] }
serde = { version = "=1.0.229", features = ["derive"] }
clap = { version = "=4.6.7", features = ["derive"] }
tracing = "=0.1.44"
anyhow = "=1.0.104"
