[package]
name = "rust_cli"
version = "0.1.0"
edition = "2021"
publish = false

[dependencies]
unicode-segmentation = "1"
unicode-width = "0.1"
textwrap = "0.16"
serde = { version = "1", features = ["derive"] }
serde_json = "1"
chrono = "0.4"
colorsys = "0.6"
tui = "0.19"
crossterm = "0.25"
tokio = { version = "1", features = ["full"] }
reqwest = { version = "0.11", default-features = false, features = ["json", "rustls-tls"] }
dirs = "4"
dotenv = "0.15"
log = "0.4"
simplelog = "0.12"
anyhow = "1"
thiserror = "1"
