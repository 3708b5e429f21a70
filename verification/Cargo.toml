[package]
name = "monsoon"
version = "0.1.0"
edition = "2021"
publish = false

[dependencies]
chrono = { version = "0.4", features = ["serde"] }
url = "2"
reqwest = "0.11"
serde = { version = "1", features = ["derive"] }
serde_json = "1"
thiserror = "1"
tokio = { version = "1", features = ["macros", "rt-multi-thread", "sync"] }
tower-service = "0.3"
chrono-tz = "0.8"
crossterm = { version = "0.25", features = ["event-stream"] }
futures = "0.3"
image = { version = "0.24", default-features = false, features = ["png"] }
itertools = "0.10"
parking_lot = "0.12"
tui = "0.19"
viuer = "0.6"
