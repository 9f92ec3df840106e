[package]
name = "soundscape"
version = "0.1.0"
edition = "2021"
publish = false

[dependencies]
anyhow = "1"
clap = { version = "4", features = ["derive"] }
crossbeam-channel = "0.5"
rand = "0.8"
rustfft = "6"
serde = { version = "1", features = ["derive"] }
toml = "0.8"
