[package]
name = "workspace_api"
version = "0.1.0"
edition = "2021"
publish = false

[dependencies]
actix-web = { version = "4", default-features = false, features = ["macros"] }
bytes = "1"
chrono = "0.4"
rayon = "1"
serde = { version = "1", features = ["derive"] }
serde_json = "1"
sha2 = "0.10"
tokio = { version = "1", features = ["rt", "sync"] }
tokio-stream = "0.1"
tokio-tungstenite = "0.20"
tracing = "0.1"
uuid = { version = "1", features = ["serde", "v4"] }
zstd = "0.13"
