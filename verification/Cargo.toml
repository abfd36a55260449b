[package]
name = "worktree"
version = "0.1.0"
edition = "2021"
publish = false

[dependencies]
fuzzy-matcher = "0.3"
anyhow = "1"
chrono = "0.4"
clap = { version = "4", features = ["derive"] }
clap_complete = "4"
crossbeam-channel = "0.5"
crossterm = "0.28"
dirs = "5"
indicatif = "0.17"
keyring = "3"
miette = { version = "7", features = ["fancy"] }
notify = "6"
owo-colors = { version = "4", features = ["supports-colors"] }
ratatui = "0.29"
reqwest = { version = "0.12", default-features = false, features = ["json", "rustls-tls"] }
serde = { version = "1", features = ["derive"] }
serde_json = "1"
serde_yaml = "0.9"
tokio = { version = "1", features = ["full"] }
tracing = "0.1"
tracing-subscriber = { version = "0.3", features = ["env-filter", "json"] }
