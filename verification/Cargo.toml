[package]
name = "mmtc"
version = "0.1.0"
edition = "2021"
publish = false

[dependencies]
anyhow = "1"
async-io = "1"
async-net = "1"
clap = { version = "4", features = ["derive"] }
crossbeam-queue = "0.3"
crossterm = "0.27"
dirs = "5"
expand = "*"
futures-lite = "1"
ratatui = { version = "0.23", features = ["serde"] }
ron = "0.8"
secular = "1"
serde = { version = "1", features = ["derive"] }
