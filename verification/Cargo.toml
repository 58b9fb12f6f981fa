[package]
name = "arroyo_boot"
version = "0.1.0"
edition = "2021"
publish = false

[dependencies]
anyhow = "1"
clap = { version = "4", features = ["derive"] }
deadpool-postgres = "*"
refinery = { version = "*", features = ["tokio-postgres"] }
tokio = { version = "1", features = ["full"] }
tokio-postgres = { version = "0.7", features = ["with-uuid-1"] }
tracing = "0.1"
uuid = "1"
