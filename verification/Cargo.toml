[package]
name = "pica"
version = "0.1.0"
edition = "2021"
publish = false

[dependencies]
http = "=1.5.0"
uuid = { version = "=1.29.0", features = ["v4"] }
chrono = "=0.4.45"
bson = "=2.15.0"
serde = { version = "=1.0.229", features = ["derive"] }
serde_json = "=1.0.154"
toml = "=0.8.23"
directories = "=5.0.1"
tokio = { version = "=1.54.1", features = ["rt", "rt-multi-thread", "sync", "time", "macros", "net"] }
clap = { version = "=4.6.7", features = ["derive"] }
axum = "0.8"
reqwest = { version = "0.12", default-features = false, features = ["json"] }
