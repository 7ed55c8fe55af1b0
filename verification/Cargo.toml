[package]
name = "alacritty_themes"
version = "0.1.0"
edition = "2021"
publish = false

[dependencies]
crossterm = "0.25"
dirs = "*"
serde = { version = "1", features = ["derive"] }
toml = "0.8"
tui = "0.19"
