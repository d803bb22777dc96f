[package]
name = "transcriber"
version = "0.1.0"
edition = "2021"
publish = false

[dependencies]
num_cpus = "1"
chrono = { version = "0.4", features = ["serde"] }
clap = { version = "4", features = ["derive"] }
ctrlc = "3"
futures-util = "0.3"
hound = "3"
indicatif = "0.17"
reqwest = { version = "0.12", default-features = false, features = ["stream", "rustls-tls"] }
serde = { version = "1", features = ["derive"] }
serde_json = "1"
serde_yaml = "0.9"
tempfile = "3"
tokio = { version = "1", features = ["full"] }
tracing = "0.1"
tracing-subscriber = { version = "0.3", features = ["env-filter"] }
which = "*"
whisper-rs = "*"
