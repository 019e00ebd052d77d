[package]
name = "rss_reader"
version = "0.1.0"
edition = "2021"
publish = false

[dependencies]
rss = "*"
reqwest = { version = "*", default-features = false, features = ["blocking"] }
rodio = "*"
anyhow = "*"
crossterm = "*"
ratatui = "*"
log = "*"
env_logger = "*"
