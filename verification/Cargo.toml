[package]
name = "service_supervisor"
version = "0.1.0"
edition = "2021"
publish = false

[dependencies]
which = "*"
tokio = { version = "1", features = ["process", "sync", "time", "rt", "rt-multi-thread", "macros", "io-util"] }
serde = { version = "1", features = ["derive"] }
tauri = { version = "2", default-features = false }
