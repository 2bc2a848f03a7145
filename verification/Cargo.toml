[package]
name = "tohoku_tts_voicevox"
version = "0.1.0"
edition = "2021"
publish = false

[dependencies]
serde = { version = "*", features = ["derive"] }
serde_json = "*"
tokio = { version = "*", features = ["sync", "rt"] }
clap = { version = "*", features = ["derive"] }
anyhow = "*"
env_logger = "*"
log = "*"
vvcore = "*"
