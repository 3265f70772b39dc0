[package]
name = "zfstop"
version = "0.1.0"
edition = "2021"
publish = false

[dependencies]
anyhow = "1"
crossterm = "0.28"
ratatui = "0.29"
signal-hook = "0.3"
sysctl = "0.6"
