[package]
name = "tgc"
version = "0.1.0"
edition = "2021"
publish = false

[dependencies]
clap = "*"
slog = "*"
slog-term = "*"

[dev-dependencies]
bincode = "1"
serde = "1"
