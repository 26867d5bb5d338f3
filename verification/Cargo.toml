[package]
name = "block_breaker_tui"
version = "0.1.0"
edition = "2021"
publish = false

[dependencies]
block-breaker = "*"
crossterm = "0.9"
structopt = "0.2"
tui = { version = "0.6", default-features = false, features = ["crossterm"] }
