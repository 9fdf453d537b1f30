[package]
name = "basalto"
version = "0.1.0"
edition = "2021"
publish = false

[dependencies]
dirs = "*"
indicatif = "0.17"
libloading = "0.8"
serde = { version = "1", features = ["derive"] }
toml = "0.8"
