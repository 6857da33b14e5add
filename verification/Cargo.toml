[package]
name = "mj_tui"
version = "0.1.0"
edition = "2021"
publish = false

[dependencies]
chrono = "=0.4.45"
crossterm = "=0.29.0"
ratatui = { version = "=0.30.2", features = ["unstable-rendered-line-info"] }
unicode-width = "=0.2.3"
