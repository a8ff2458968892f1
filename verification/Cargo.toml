[package]
name = "youtube_downloader"
version = "0.1.0"
edition = "2021"
publish = false

[dependencies]
base64 = "*"
youtube_dl = { version = "*", features = ["tokio"] }
tokio = { version = "*", features = ["rt-multi-thread", "macros", "time", "fs", "process"] }
dirs = "*"
serde_json = "*"
