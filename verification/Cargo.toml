[package]
name = "voice_ptt"
version = "0.1.2"
edition = "2021"
publish = false

[dependencies]
anyhow = "1"
cpal = "*"
device_query = "*"
dotenvy = "*"
hound = "3"
reqwest = { version = "*", features = ["json", "multipart"] }
serde = { version = "1", features = ["derive"] }
tempfile = "3"
tokio = { version = "1", features = ["full"] }
toml = "*"
