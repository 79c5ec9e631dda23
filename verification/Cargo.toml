[package]
name = "chip8"
version = "0.1.0"
edition = "2021"
publish = false

[dependencies]
anyhow = "*"
byteorder = "*"
clap = { version = "*", features = ["derive"] }
crossterm = "*"
log = "*"
log4rs = "*"
rand = "*"
ratatui = "*"
spin_sleep = "*"
thiserror = "*"
