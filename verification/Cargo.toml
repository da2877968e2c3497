[package]
name = "duetime"
version = "0.1.0"
edition = "2021"
publish = false

[dependencies]
chrono = { version = "0.4", features = ["serde"] }
ratatui = "0.29"
crossterm = "0.28"
serde = { version = "1", features = ["derive"] }
serde_json = "1"
arboard = { version = "3", default-features = false }
directories = "*"
log = "0.4"
simplelog = "0.12"
rodio = "*"
libc = "0.2"
