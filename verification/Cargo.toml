[package]
name = "tetrs"
version = "0.1.0"
edition = "2021"
publish = false

[dependencies]
clap = { version = "=4.6.7", features = ["derive", "env", "string"] }
dirs = "=5.0.1"
serde = { version = "=1.0.229", features = ["derive"] }
toml = "=0.8.23"
