[package]
name = "cyrano"
version = "0.1.0"
edition = "2021"
publish = false

[dependencies]
core-foundation = "0.10"
core-graphics = "0.24"
cpal = "0.15"
dirs = "6"
log = "0.4"
serde = { version = "1", features = ["derive"] }
specta = "*"
thiserror = "2"
whisper-rs = "0.14"
