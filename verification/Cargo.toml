[package]
name = "sequencer"
version = "0.1.0"
edition = "2021"
publish = false

[dependencies]
committable = "=0.2.4"
serde = { version = "=1.0.229", features = ["derive"] }
sha3 = "=0.10.9"
