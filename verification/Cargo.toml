[package]
name = "hecto"
version = "0.1.0"
edition = "2021"
publish = false

[dependencies]
clap = { version = "*", features = ["derive"] }
crossterm = "0.25"
tui = "0.19"
