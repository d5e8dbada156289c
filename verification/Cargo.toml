[package]
name = "ultracode_workflow"
version = "0.1.0"
edition = "2021"
publish = false

[dependencies]
chrono = "0.4"
crossterm = "0.28"
libc = "0.2"
ratatui = "0.29"
serde = { version = "1", features = ["derive"] }
serde_json = "1"
sha2 = "0.10"
tokio = { version = "1", features = ["io-util", "macros", "net", "process", "rt-multi-thread", "sync", "time"] }
unicode-width = "0.2"
uuid = { version = "1", features = ["v4", "v7"] }

[dev-dependencies]
tempfile = "3"
