[package]
name = "softcpu"
version = "0.1.0"
edition = "2021"
publish = false

[dependencies]
fps_counter = "*"
clap = { version = "4", features = ["derive"] }
crossterm = "0.28"
ratatui = "0.29"
