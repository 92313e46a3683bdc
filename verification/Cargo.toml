[package]
name = "calendar2discord"
version = "0.1.0"
edition = "2021"
publish = false

[dependencies]
chrono = "0.4"
icalendar = "*"
poise = "0.6"
reqwest = "0.12"
serde = { version = "1", features = ["derive"] }
serde_json = "1"
tokio = { version = "1", features = ["macros", "rt-multi-thread", "time"] }
