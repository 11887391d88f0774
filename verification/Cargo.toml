[package]
name = "sysconfig"
version = "0.1.0"
edition = "2021"
publish = false

[dependencies]
clap = "*"
home = "*"
serde = { version = "*", features = ["derive"] }
termion = "*"
toml = "*"
