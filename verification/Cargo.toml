[package]
name = "hyprfloat"
version = "0.1.0"
edition = "2021"
publish = false

[dependencies]
rand = "0.9"
hyprland = "0.4.0-beta.2"
clap = { version = "4", features = ["derive"] }
clap_complete = "4"
serde = { version = "1", features = ["derive"] }
serde_json = "1"
toml = "0.8"
signal-hook = "0.3"
simple-home-dir = "*"
