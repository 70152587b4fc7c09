[package]
name = "ao-cli"
version = "0.1.0"
edition = "2021"
publish = false

[dependencies]
anyhow = "1"
clap = { version = "4", features = ["derive"] }
clap_complete = { version = "4", features = ["unstable-dynamic"] }
colored = "2"
comfy-table = "7"
crossterm = "0.28"
dialoguer = "0.11"
libc = "0.2"
ratatui = "0.29"
rpassword = "7"
serde = { version = "1", features = ["derive"] }
serde_json = "1"
serde_yaml = "0.9"
sysinfo = "0.33"
toml = "0.8"
