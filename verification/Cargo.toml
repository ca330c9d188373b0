[package]
name = "wgit"
version = "0.1.0"
edition = "2021"
publish = false

[dependencies]
anyhow = "*"
clap = { version = "*", features = ["derive"] }
colored = "*"
crossterm = "*"
inquire = "*"
serde = { version = "*", features = ["derive"] }
serde_json = "*"
