[package]
name = "hackeros_installer"
version = "0.1.0"
edition = "2021"
publish = false

[dependencies]
anyhow = "*"
crossterm = "*"
git2 = { version = "*", default-features = false }
indicatif = "*"
ratatui = "*"
reqwest = { version = "*", default-features = false }
tokio = { version = "*", features = ["rt-multi-thread", "macros"] }
