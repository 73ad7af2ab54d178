[package]
name = "linkrouter"
version = "0.1.0"
edition = "2021"
publish = false

[dependencies]
regex = "*"
anyhow = "*"
clap = "*"
dbus = "*"
serde = { version = "*", features = ["derive"] }
serde_yaml = "*"
xdg = "*"
