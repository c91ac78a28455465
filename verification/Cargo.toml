[package]
name = "server_settings"
version = "0.1.0"
edition = "2021"
publish = false

[dependencies]
globset = "*"
serde = { version = "*", features = ["derive"] }
structopt = "*"
toml = "*"
