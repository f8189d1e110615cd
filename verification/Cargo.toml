[package]
name = "atuin_search"
version = "0.1.0"
edition = "2021"
publish = false

[dependencies]
atuin-client = "0.8"
chrono = "0.4"
chrono-english = "0.1"
crossterm = "0.22"
eyre = "0.6"
humantime = "2.1"
tokio = { version = "1", features = ["rt-multi-thread", "macros"] }
tui = { version = "0.16", default-features = false, features = ["crossterm"] }
unicode-width = "0.1"
