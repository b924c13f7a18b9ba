[package]
name = "anton"
version = "0.1.0"
edition = "2021"
publish = false

[dependencies]
colorous = "*"
ratatui = "*"
crossterm = "*"
eyre = "*"
