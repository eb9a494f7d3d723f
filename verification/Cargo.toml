[package]
name = "romodoro"
version = "0.1.0"
edition = "2021"
publish = false

[dependencies]
chrono = "*"
tokio = { version = "*", features = ["macros", "rt-multi-thread", "sync", "time"] }
tokio-util = "*"
futures = "*"
reqwest = { version = "*", default-features = false, features = ["json"] }
ratatui = "*"
crossterm = "*"
directories = "*"
serde = { version = "*", features = ["derive"] }
serde_json = "*"
toml = "*"
