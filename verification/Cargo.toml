[package]
name = "besp"
version = "0.1.0"
edition = "2021"
publish = false

[dependencies]
chrono = "=0.4.45"
url = "=2.5.8"
serde = { version = "*", features = ["derive"] }
serde_json = "*"
reqwest = { version = "*", default-features = false, features = ["json"] }
tokio = { version = "*", features = ["macros", "rt-multi-thread", "fs"] }
warp = "=0.3.7"
juniper = "=0.16.2"
juniper_warp = "=0.8.0"
clap = "*"
slog = "*"
slog-term = "*"
slog-async = "*"
futures = "*"
