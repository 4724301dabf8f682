[package]
name = "harpe"
version = "0.1.0"
edition = "2021"
publish = false

[dependencies]
chrono = "0.4"
uuid = { version = "1", features = ["v7"] }
textwrap = "0.16"
serde = { version = "1", features = ["derive"] }
serde_json = "1"
toml = "0.8"
clap = { version = "4", features = ["derive", "env"] }
crossterm = "0.28"
