[package]
name = "hackeros_installer"
version = "0.1.0"
edition = "2021"
publish = false

[dependencies]
anyhow = "1"
crossterm = "*"
ratatui = "*"
tokio = { version = "1", features = ["rt-multi-thread", "macros"] }
reqwest = { version = "*", default-features = false, features = ["rustls-tls"] }
git2 = { version = "*", default-features = false }
indicatif = "*"
log = "0.4"
env_logger = "*"
