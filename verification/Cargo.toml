[package]
name = "cyberpunk_mod_manager"
version = "0.1.0"
edition = "2021"
publish = false

[dependencies]
compress-tools = "0.14"
crossterm = "0.25"
eyre = "0.6"
fs_extra = "1"
log = "0.4"
serde = { version = "1", features = ["derive"] }
serde_json = "1"
tokio = { version = "1", features = ["full"] }
tui = "0.19"
tui-logger = "0.8"
walkdir = "2"
