[package]
name = "neolink"
version = "0.1.0"
edition = "2021"
publish = false

[dependencies]
anyhow = "1"
axum = "0.7"
futures = "0.3"
log = "0.4"
serde = { version = "1", features = ["derive"] }
time = { version = "0.3", features = ["local-offset"] }
tokio = { version = "1", features = ["macros", "net", "rt", "sync", "time"] }
tokio-util = "0.7"
