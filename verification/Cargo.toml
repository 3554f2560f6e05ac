[package]
name = "mcraw-tui"
version = "0.1.0"
edition = "2021"
publish = false

[dependencies]
anyhow = "=1.0.104"
base64 = "=0.22.1"
clap = { version = "=4.6.7", features = ["derive"] }
dirs = "=5.0.1"
icy_sixel = "*"
lru = "=0.12.5"
percent-encoding = "=2.3.2"
serde = { version = "=1.0.229", features = ["derive"] }
serde_json = "=1.0.154"
thiserror = "=1.0.69"
tiff = "=0.9.1"
