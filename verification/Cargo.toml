[package]
name = "ffutility"
version = "0.1.0"
edition = "2021"
publish = false

[dependencies]
anyhow = "1"
bytes = "=1.12.1"
ffmpeg-next = "=7.1.0"
futures = "0.3"
h264-reader = "=0.8.0"
moq-karp = "=0.15.0"
opencv = { version = "=0.94.4", default-features = false }
serde = { version = "1", features = ["derive"] }
thiserror = "2"
tokio = { version = "1", features = ["sync", "rt"] }
tokio-stream = "0.1"
tracing = "0.1"
v4l = "=0.14.0"
