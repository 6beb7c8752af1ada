[package]
name = "ssh_manager"
version = "0.1.0"
edition = "2021"
publish = false

[dependencies]
color-eyre = "*"
confy = "*"
crossterm = "*"
execute = "*"
ratatui = "*"
serde = { version = "*", features = ["derive"] }
serde_json = "*"
