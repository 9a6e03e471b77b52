[package]
name = "tauri-plugin-blec"
version = "0.1.0"
edition = "2021"
publish = false

[dependencies]
uuid = { version = "1", features = ["serde"] }
bluest = { version = "*", features = ["serde"] }
enumflags2 = { version = "0.7", features = ["serde"] }
futures = "0.3"
serde = { version = "1", features = ["derive"] }
serde_json = "1"
tokio = { version = "1", features = ["rt", "sync", "time", "macros"] }
tracing = "0.1"
thiserror = "2"
