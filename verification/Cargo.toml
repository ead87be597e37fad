[package]
name = "ffmpeg_service"
version = "0.1.0"
edition = "2021"
publish = false

[dependencies]
awc = { version = "3", default-features = false }
futures-util = "0.3"
http = "0.2"
log = "0.4"
thiserror = "1"
tokio = { version = "1", features = ["process", "rt", "io-util"] }
