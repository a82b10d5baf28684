[package]
name = "timer"
version = "0.1.0"
edition = "2021"
publish = false

[dependencies]
anyhow = "1"
chrono = { version = "0.4", default-features = false, features = ["clock"] }
clap = { version = "4", features = ["derive"] }
crossterm = "0.28"
dirs = "6"
figlet-rs = "0.1"
quick-xml = "0.37"
rand = "0.10"
ratatui = { version = "0.29", default-features = false, features = ["crossterm"] }
reqwest = { version = "0.12", default-features = false, features = ["blocking", "rustls-tls"] }
rodio = { version = "0.20", default-features = false, features = ["symphonia-all"] }
rustfft = "6"
serde = { version = "1", features = ["derive"] }
serde_json = "1"
symphonia = { version = "0.5", default-features = false }
toml = "0.8"
unicode-width = "0.2"
walkdir = "2"
