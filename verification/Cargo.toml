[package]
name = "game_menu"
version = "0.1.0"
edition = "2021"
publish = false

[dependencies]
tokio = { version = "*", default-features = false, features = ["sync"] }
crossterm = "*"
ratatui = "*"
serde = { version = "*", features = ["derive"] }
color-eyre = "*"
