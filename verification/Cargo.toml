[package]
name = "slumber_core"
version = "0.1.0"
edition = "2021"
publish = false

[dependencies]
anyhow = "1"
bytes = { version = "1", features = ["serde"] }
chrono = { version = "0.4", default-features = false, features = ["clock", "std"] }
indexmap = { version = "2", features = ["serde"] }
mime = "0.3"
ratatui = { version = "*", default-features = false }
reqwest = { version = "*", default-features = false }
serde = { version = "1", features = ["derive"] }
thiserror = "1"
unicode-width = "*"
uuid = { version = "1", features = ["v4"] }

[dev-dependencies]
serde_json = "1"
