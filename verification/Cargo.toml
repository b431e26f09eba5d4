[package]
name = "beep"
version = "0.1.0"
edition = "2021"
publish = false

[dependencies]
anyhow = "=1.0.104"
clap = { version = "=4.6.7", features = ["derive"] }
cpal = "=0.18.2"
dasp_sample = "=0.11.0"
dirs = "=7.0.0"
reqwest = { version = "=0.13.5", default-features = false, features = ["form", "json"] }
rodio = "=0.22.2"
serde = { version = "=1.0.229", features = ["derive"] }
serde_json = "=1.0.151"
serde_yaml = "=0.9.34"
tokio = { version = "=1.53.2", features = ["macros", "rt-multi-thread", "time"] }
