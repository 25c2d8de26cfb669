[package]
name = "text_recognition"
version = "0.1.0"
edition = "2021"
publish = false

[dependencies]
mcai_worker_sdk = { version = "=0.11.11", features = ["media"] }
schemars = "0.8"
serde = { version = "=1.0.229", features = ["derive"] }
serde_derive = "=1.0.229"
serde_json = "=1.0.154"
stainless_ffmpeg = "0.2"
stainless-ffmpeg-sys = "=4.2.3"
tesseract = "=0.8.0"
