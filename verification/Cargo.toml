[package]
name = "listen"
version = "0.1.0"
edition = "2021"
publish = false

[dependencies]
clap = { version = "*", features = ["derive"] }
cpal = "*"
hound = "*"
serde = { version = "*", features = ["derive"] }
serde_json = "*"
thiserror = "*"
whisper-rs = "*"
