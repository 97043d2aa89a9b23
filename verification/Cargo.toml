[package]
name = "download_manager"
version = "0.1.0"
edition = "2021"
publish = false

[dependencies]
tokio = { version = "=1.53.2", features = ["full"] }
url = "=2.5.8"
reqwest = { version = "=0.13.5", default-features = false, features = ["stream"] }
futures = "=0.3.34"
ratatui = "=0.28.1"
crossterm = "=0.28.1"
tui-textarea = "=0.6.1"
byte-unit = "=5.2.6"
dotenv = "=0.15.0"
