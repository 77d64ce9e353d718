[package]
name = "controller_battery"
version = "0.1.0"
edition = "2021"
publish = false

[dependencies]
anyhow = "1"
axum = { version = "0.7", features = ["ws"] }
futures = "0.3"
hidapi = "2"
log = "0.4"
serde = { version = "1", features = ["derive"] }
serde_json = "1"
simplelog = "0.12"
tokio = { version = "1", features = ["full"] }
tower-http = { version = "0.5", features = ["cors"] }
udev = "*"
