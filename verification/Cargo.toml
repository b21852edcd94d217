[package]
name = "auth"
version = "0.1.0"
edition = "2021"
publish = false

[dependencies]
age = "0.11"
arboard = { version = "3", default-features = false }
base32 = "0.5"
clap = { version = "4", features = ["derive"] }
dirs = "6"
nix = { version = "0.29", features = ["user"] }
ratatui = "0.29"
serde = { version = "1", features = ["derive"] }
thiserror = "2"
toml = "0.8"
totp-rs = "5"
