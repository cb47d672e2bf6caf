[package]
name = "system_audio"
version = "0.1.0"
edition = "2021"
publish = false

[dependencies]
anyhow = "1"
async-trait = "0.1"
cpal = "0.15"
futures-channel = "0.3"
futures-util = "0.3"
hound = "3.5"
log = "0.4"
reqwest = { version = "0.12", features = ["json", "multipart"] }
serde = { version = "1", features = ["derive"] }
tokio = { version = "1", features = ["rt", "macros", "sync", "time"] }
