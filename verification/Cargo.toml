[package]
name = "sw"
version = "0.1.0"
edition = "2021"
publish = false

[dependencies]
anyhow = "1"
bincode = "1"
chrono = "0.4"
clap = { version = "4", features = ["derive"] }
clap_complete = "4"
crossterm = "0.28"
dialoguer = "0.11"
directories = "5"
dirs = "5"
fuzzy-matcher = "0.3"
git2 = "0.19"
ignore = "0.4"
ratatui = "0.29"
rayon = "1"
serde = { version = "1", features = ["derive"] }
serde_json = "1"
which = "6"
