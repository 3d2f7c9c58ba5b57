[package]
name = "argvus_calendar"
version = "0.1.0"
edition = "2021"
publish = false

[dependencies]
chrono = "0.4"
icalendar = "*"
quick-xml = "*"
uuid = { version = "1", features = ["v4"] }
toml = "*"
serde = { version = "1", features = ["derive"] }
serde_json = "1"
rusqlite = { version = "*", features = ["bundled"] }
reqwest = "*"
clap = { version = "4", features = ["derive"] }
notify-rust = "*"
secret-service = { version = "*", features = ["rt-tokio-crypto-rust"] }
thiserror = "*"
log = "0.4"
env_logger = "*"
relm4 = "*"
gtk4-layer-shell = "*"
