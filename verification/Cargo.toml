[package]
name = "romm_tui"
version = "0.1.0"
edition = "2021"
publish = false

[dependencies]
unicode-normalization = "=0.1.26"
percent-encoding = "=2.3.2"
sha2 = "=0.10.9"
self_update = { version = "=1.3.3", default-features = false, features = ["ureq", "rustls", "github", "archive-tar", "compression-tar-gz"] }
serde = { version = "=1.0.229", features = ["derive"] }
serde_json = "=1.0.154"
dirs = "=7.0.0"
crossterm = "=0.29.0"
ratatui = "=0.30.2"
ratatui-themekit = "=0.6.1"
anyhow = "=1.0.104"
reqwest = { version = "=0.12.28", default-features = false, features = ["json", "rustls-tls"] }
tokio = { version = "=1.54.1", features = ["rt-multi-thread", "macros", "time", "fs", "io-util"] }
indicatif = "*"
