[package]
name = "whispercrabs"
version = "0.1.0"
edition = "2021"
publish = false

[dependencies]
cpal = "0.15"
dirs = "6"
dotenvy = "0.15"
gtk4 = "0.9"
hound = "3.5"
reqwest = { version = "0.12", features = ["blocking", "multipart", "json"] }
rodio = { version = "0.20", default-features = false, features = ["wav"] }
serde_json = "1"
tokio = { version = "1", features = ["rt-multi-thread"] }
