[package]
name = "transcribe"
version = "0.1.0"
edition = "2021"
publish = false

[dependencies]
whisper-rs = "*"

[dev-dependencies]
hound = "*"
