[package]
name = "ebrz"
version = "0.1.0"
edition = "2021"
publish = false

[dependencies]
compio = { version = "*", features = ["macros", "time"] }
cyper = { version = "*", features = ["json"] }
event-listener = "5"
flume = "0.11"
futures = "0.3"
htmlize = "1"
rusqlite = { version = "*", features = ["bundled"] }
serde = { version = "1", features = ["derive"] }
serde_json = "1"
telegram_types = "*"
thiserror = "*"
tracing = "0.1"
tracing-subscriber = { version = "0.3", features = ["env-filter"] }
