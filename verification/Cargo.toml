[package]
name = "directory_lister"
version = "0.1.0"
edition = "2021"
publish = false

[dependencies]
clap = { version = "=4.6.7", features = ["derive"] }
crossterm = "=0.29.0"
ratatui = "=0.30.2"
mysql = { version = "=28.0.3", default-features = false, features = ["default-rust"] }
