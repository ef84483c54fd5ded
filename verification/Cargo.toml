[package]
name = "cli_pilot"
version = "0.1.0"
edition = "2021"
publish = false

[dependencies]
serde = { version = "1", features = ["derive"] }
serde_json = "1"
reqwest = { version = "0.11", default-features = false }
tokio = { version = "1", features = ["macros", "rt"] }
clap = { version = "3", features = ["derive"] }
inquire = "*"
spinners = "*"
termion = "*"
toml = "*"
