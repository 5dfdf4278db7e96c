[package]
name = "netctl"
version = "0.1.0"
edition = "2021"
publish = false

[dependencies]
uuid = { version = "1", features = ["v4"] }
tokio = { version = "1", features = ["full"] }
zbus = { version = "5" }
serde = { version = "1", features = ["derive"] }
serde_json = { version = "1" }
toml = { version = "0.8" }
clap = { version = "4", features = ["derive"] }
tracing = { version = "0.1" }
tracing-subscriber = { version = "0.3", features = ["env-filter"] }
atty = { version = "0.2" }
axum = { version = "0.7" }
tower-http = { version = "0.5", features = ["cors", "trace"] }
async-trait = { version = "0.1" }
